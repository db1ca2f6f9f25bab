//! Typed events of the token metadata program, the crate's output schema
//! for it.

use vstd::prelude::*;

verus! {

#[derive(Clone, PartialEq, Debug)]
pub struct MplTokenMetadataBlockEvents {
    pub transactions: Vec<MplTokenMetadataTransactionEvents>,
}

#[derive(Clone, PartialEq, Debug)]
pub struct MplTokenMetadataTransactionEvents {
    pub signature: String,
    pub events: Vec<MplTokenMetadataEvent>,
}

#[derive(Clone, PartialEq, Debug)]
pub struct MplTokenMetadataEvent {
    pub event: Option<MplEventKind>,
}

#[derive(Clone, PartialEq, Debug)]
pub enum MplEventKind {
    CreateMetadataAccountV3(CreateMetadataAccountV3Event),
    ApproveCollectionAuthority(ApproveCollectionAuthorityEvent),
    ApproveUseAuthority(ApproveUseAuthorityEvent),
    BubblegumSetCollectionSize(BubblegumSetCollectionSizeEvent),
    Burn(BurnEvent),
    BurnEditionNft(BurnEditionNftEvent),
    BurnNft(BurnNftEvent),
    CloseEscrowAccount(CloseEscrowAccountEvent),
    ConvertMasterEditionV1ToV2(ConvertMasterEditionV1ToV2Event),
    Create(CreateEvent),
    CreateEscrowAccount(CreateEscrowAccountEvent),
    CreateMasterEdition(CreateMasterEditionEvent),
    CreateMasterEditionV3(CreateMasterEditionV3Event),
    CreateMetadataAccount(CreateMetadataAccountEvent),
    CreateMetadataAccountV2(CreateMetadataAccountV2Event),
    Delegate(DelegateEvent),
    DeprecatedCreateMasterEdition(DeprecatedCreateMasterEditionEvent),
    DeprecatedCreateReservationList(DeprecatedCreateReservationListEvent),
    DeprecatedMintNewEditionFromMasterEditionViaPrintingToken(DeprecatedMintNewEditionFromMasterEditionViaPrintingTokenEvent),
    DeprecatedMintPrintingTokens(DeprecatedMintPrintingTokensEvent),
    DeprecatedMintPrintingTokensViaToken(DeprecatedMintPrintingTokensViaTokenEvent),
    DeprecatedSetReservationList(DeprecatedSetReservationListEvent),
    FreezeDelegatedAccount(FreezeDelegatedAccountEvent),
    Lock(LockEvent),
    Migrate(MigrateEvent),
    MintNewEditionFromMasterEditionViaToken(MintNewEditionFromMasterEditionViaTokenEvent),
    MintNewEditionFromMasterEditionViaVaultProxy(MintNewEditionFromMasterEditionViaVaultProxyEvent),
    PuffMetadata(PuffMetadataEvent),
    RemoveCreatorVerification(RemoveCreatorVerificationEvent),
    Revoke(RevokeEvent),
    RevokeCollectionAuthority(RevokeCollectionAuthorityEvent),
    RevokeUseAuthority(RevokeUseAuthorityEvent),
    SetAndVerifyCollection(SetAndVerifyCollectionEvent),
    SetAndVerifySizedCollectionItem(SetAndVerifySizedCollectionItemEvent),
    SetTokenStandard(SetTokenStandardEvent),
    SignMetadata(SignMetadataEvent),
    ThawDelegatedAccount(ThawDelegatedAccountEvent),
    Transfer(TransferEvent),
    TransferOutOfEscrow(TransferOutOfEscrowEvent),
    Unlock(UnlockEvent),
    Unverify(UnverifyEvent),
    UnverifyCollection(UnverifyCollectionEvent),
    UnverifySizedCollectionItem(UnverifySizedCollectionItemEvent),
    Update(UpdateEvent),
    UpdateMetadataAccount(UpdateMetadataAccountEvent),
    UpdateMetadataAccountV2(UpdateMetadataAccountV2Event),
    UpdatePrimarySaleHappenedViaToken(UpdatePrimarySaleHappenedViaTokenEvent),
    Utilize(UtilizeEvent),
    Print(PrintEvent),
    Verify(VerifyEvent),
    Mint(MintEvent),
    SetCollectionSize(SetCollectionSizeEvent),
    Collect(CollectEvent),
    Use(UseEvent),
    VerifySizedCollectionItem(VerifySizedCollectionItemEvent),
    VerifyCollection(VerifyCollectionEvent),
    Resize(ResizeEvent),
    CloseAccounts(CloseAccountsEvent),
}

#[derive(Clone, PartialEq, Debug)]
pub struct ApproveCollectionAuthorityEvent {
}

#[derive(Clone, PartialEq, Debug)]
pub struct ApproveUseAuthorityEvent {
}

#[derive(Clone, PartialEq, Debug)]
pub struct BubblegumSetCollectionSizeEvent {
}

#[derive(Clone, PartialEq, Debug)]
pub struct BurnEvent {
}

#[derive(Clone, PartialEq, Debug)]
pub struct BurnEditionNftEvent {
}

#[derive(Clone, PartialEq, Debug)]
pub struct BurnNftEvent {
}

#[derive(Clone, PartialEq, Debug)]
pub struct CloseEscrowAccountEvent {
}

#[derive(Clone, PartialEq, Debug)]
pub struct ConvertMasterEditionV1ToV2Event {
}

#[derive(Clone, PartialEq, Debug)]
pub struct CreateEscrowAccountEvent {
}

#[derive(Clone, PartialEq, Debug)]
pub struct CreateMasterEditionEvent {
}

#[derive(Clone, PartialEq, Debug)]
pub struct CreateMasterEditionV3Event {
}

#[derive(Clone, PartialEq, Debug)]
pub struct CreateMetadataAccountEvent {
}

#[derive(Clone, PartialEq, Debug)]
pub struct CreateMetadataAccountV2Event {
}

#[derive(Clone, PartialEq, Debug)]
pub struct DelegateEvent {
}

#[derive(Clone, PartialEq, Debug)]
pub struct DeprecatedCreateMasterEditionEvent {
}

#[derive(Clone, PartialEq, Debug)]
pub struct DeprecatedCreateReservationListEvent {
}

#[derive(Clone, PartialEq, Debug)]
pub struct DeprecatedMintNewEditionFromMasterEditionViaPrintingTokenEvent {
}

#[derive(Clone, PartialEq, Debug)]
pub struct DeprecatedMintPrintingTokensEvent {
}

#[derive(Clone, PartialEq, Debug)]
pub struct DeprecatedMintPrintingTokensViaTokenEvent {
}

#[derive(Clone, PartialEq, Debug)]
pub struct DeprecatedSetReservationListEvent {
}

#[derive(Clone, PartialEq, Debug)]
pub struct FreezeDelegatedAccountEvent {
}

#[derive(Clone, PartialEq, Debug)]
pub struct LockEvent {
}

#[derive(Clone, PartialEq, Debug)]
pub struct MigrateEvent {
}

#[derive(Clone, PartialEq, Debug)]
pub struct MintNewEditionFromMasterEditionViaTokenEvent {
}

#[derive(Clone, PartialEq, Debug)]
pub struct MintNewEditionFromMasterEditionViaVaultProxyEvent {
}

#[derive(Clone, PartialEq, Debug)]
pub struct PuffMetadataEvent {
}

#[derive(Clone, PartialEq, Debug)]
pub struct RemoveCreatorVerificationEvent {
}

#[derive(Clone, PartialEq, Debug)]
pub struct RevokeEvent {
}

#[derive(Clone, PartialEq, Debug)]
pub struct RevokeCollectionAuthorityEvent {
}

#[derive(Clone, PartialEq, Debug)]
pub struct RevokeUseAuthorityEvent {
}

#[derive(Clone, PartialEq, Debug)]
pub struct SetAndVerifyCollectionEvent {
}

#[derive(Clone, PartialEq, Debug)]
pub struct SetAndVerifySizedCollectionItemEvent {
}

#[derive(Clone, PartialEq, Debug)]
pub struct SetTokenStandardEvent {
}

#[derive(Clone, PartialEq, Debug)]
pub struct SignMetadataEvent {
}

#[derive(Clone, PartialEq, Debug)]
pub struct ThawDelegatedAccountEvent {
}

#[derive(Clone, PartialEq, Debug)]
pub struct TransferEvent {
}

#[derive(Clone, PartialEq, Debug)]
pub struct TransferOutOfEscrowEvent {
}

#[derive(Clone, PartialEq, Debug)]
pub struct UnlockEvent {
}

#[derive(Clone, PartialEq, Debug)]
pub struct UnverifyEvent {
}

#[derive(Clone, PartialEq, Debug)]
pub struct UnverifyCollectionEvent {
}

#[derive(Clone, PartialEq, Debug)]
pub struct UnverifySizedCollectionItemEvent {
}

#[derive(Clone, PartialEq, Debug)]
pub struct UpdateMetadataAccountEvent {
}

#[derive(Clone, PartialEq, Debug)]
pub struct UpdatePrimarySaleHappenedViaTokenEvent {
}

#[derive(Clone, PartialEq, Debug)]
pub struct UtilizeEvent {
}

#[derive(Clone, PartialEq, Debug)]
pub struct PrintEvent {
}

#[derive(Clone, PartialEq, Debug)]
pub struct VerifyEvent {
}

#[derive(Clone, PartialEq, Debug)]
pub struct MintEvent {
}

#[derive(Clone, PartialEq, Debug)]
pub struct SetCollectionSizeEvent {
}

#[derive(Clone, PartialEq, Debug)]
pub struct CollectEvent {
}

#[derive(Clone, PartialEq, Debug)]
pub struct UseEvent {
}

#[derive(Clone, PartialEq, Debug)]
pub struct VerifySizedCollectionItemEvent {
}

#[derive(Clone, PartialEq, Debug)]
pub struct VerifyCollectionEvent {
}

#[derive(Clone, PartialEq, Debug)]
pub struct ResizeEvent {
}

#[derive(Clone, PartialEq, Debug)]
pub struct CloseAccountsEvent {
}

#[derive(Clone, PartialEq, Debug)]
pub struct CreateMetadataAccountV3Event {
    pub metadata: String,
    pub mint: String,
    pub update_authority: String,
    pub data: Option<DataV2>,
    pub is_mutable: bool,
    pub collection_details: Option<CollectionDetails>,
}

#[derive(Clone, PartialEq, Debug)]
pub struct CreateEvent {
    pub metadata: String,
    pub mint: String,
    pub mint_authority: String,
    pub update_authority: String,
    pub asset_data: Option<AssetData>,
    pub decimals: Option<u32>,
    pub print_supply: Option<PrintSupply>,
}

#[derive(Clone, PartialEq, Debug)]
pub struct UpdateEvent {
    pub authority: String,
    pub mint: String,
    pub metadata: String,
    pub update_args: Option<UpdateArgs>,
}

#[derive(Clone, PartialEq, Debug)]
pub enum UpdateArgs {
    V1(UpdateArgsV1),
    AsUpdateAuthorityV2(UpdateArgsAsUpdateAuthorityV2),
    AsAuthorityItemDelegateV2(UpdateArgsAsAuthorityItemDelegateV2),
    AsCollectionDelegateV2(UpdateArgsAsCollectionDelegateV2),
    AsDataDelegateV2(UpdateArgsAsDataDelegateV2),
    AsProgrammableConfigDelegateV2(UpdateArgsAsProgrammableConfigDelegateV2),
    AsDataItemDelegateV2(UpdateArgsAsDataItemDelegateV2),
    AsCollectionItemDelegateV2(UpdateArgsAsCollectionItemDelegateV2),
    AsProgrammableConfigItemDelegateV2(UpdateArgsAsProgrammableConfigItemDelegateV2),
}

#[derive(Clone, PartialEq, Debug)]
pub struct UpdateMetadataAccountV2Event {
    pub data: Option<DataV2>,
    pub update_authority: Option<String>,
    pub primary_sale_happened: Option<bool>,
    pub is_mutable: Option<bool>,
}

#[derive(Clone, PartialEq, Debug)]
pub struct UpdateArgsV1 {
    pub new_update_authority: Option<String>,
    pub data: Option<Data>,
    pub primary_sale_happened: Option<bool>,
    pub is_mutable: Option<bool>,
    pub collection: Option<CollectionToggle>,
    pub collection_details: Option<CollectionDetailsToggle>,
    pub uses: Option<UsesToggle>,
    pub rule_set: Option<RuleSetToggle>,
    pub authorization_data: Option<AuthorizationData>,
}

#[derive(Clone, PartialEq, Debug)]
pub struct UpdateArgsAsUpdateAuthorityV2 {
    pub new_update_authority: Option<String>,
    pub data: Option<Data>,
    pub primary_sale_happened: Option<bool>,
    pub is_mutable: Option<bool>,
    pub collection: Option<CollectionToggle>,
    pub collection_details: Option<CollectionDetailsToggle>,
    pub uses: Option<UsesToggle>,
    pub rule_set: Option<RuleSetToggle>,
    pub token_standard: Option<TokenStandard>,
    pub authorization_data: Option<AuthorizationData>,
}

#[derive(Clone, PartialEq, Debug)]
pub struct UpdateArgsAsAuthorityItemDelegateV2 {
    pub new_update_authority: Option<String>,
    pub primary_sale_happened: Option<bool>,
    pub is_mutable: Option<bool>,
    pub token_standard: Option<TokenStandard>,
    pub authorization_data: Option<AuthorizationData>,
}

#[derive(Clone, PartialEq, Debug)]
pub struct UpdateArgsAsCollectionDelegateV2 {
    pub collection: Option<CollectionToggle>,
    pub authorization_data: Option<AuthorizationData>,
}

#[derive(Clone, PartialEq, Debug)]
pub struct UpdateArgsAsDataDelegateV2 {
    pub data: Option<Data>,
    pub authorization_data: Option<AuthorizationData>,
}

#[derive(Clone, PartialEq, Debug)]
pub struct UpdateArgsAsProgrammableConfigDelegateV2 {
    pub rule_set: Option<RuleSetToggle>,
    pub authorization_data: Option<AuthorizationData>,
}

#[derive(Clone, PartialEq, Debug)]
pub struct UpdateArgsAsDataItemDelegateV2 {
    pub data: Option<Data>,
    pub authorization_data: Option<AuthorizationData>,
}

#[derive(Clone, PartialEq, Debug)]
pub struct UpdateArgsAsCollectionItemDelegateV2 {
    pub collection: Option<CollectionToggle>,
    pub authorization_data: Option<AuthorizationData>,
}

#[derive(Clone, PartialEq, Debug)]
pub struct UpdateArgsAsProgrammableConfigItemDelegateV2 {
    pub rule_set: Option<RuleSetToggle>,
    pub authorization_data: Option<AuthorizationData>,
}

#[derive(Clone, PartialEq, Debug)]
pub struct Data {
    pub name: String,
    pub symbol: String,
    pub uri: String,
    pub seller_fee_basis_points: u32,
    pub creators: Vec<Creator>,
}

#[derive(Clone, PartialEq, Debug)]
pub struct PrintSupply {
}

#[derive(Clone, PartialEq, Debug)]
pub struct AssetData {
    pub name: String,
    pub symbol: String,
    pub uri: String,
    pub seller_fee_basis_points: u32,
    pub creators: Vec<Creator>,
    pub primary_sale_happened: bool,
    pub is_mutable: bool,
    pub token_standard: Option<TokenStandard>,
    pub collection: Option<Collection>,
    pub uses: Option<Uses>,
    pub collection_details: Option<CollectionDetails>,
}

#[derive(Clone, PartialEq, Debug)]
pub struct RuleSetToggle {
}

#[derive(Clone, PartialEq, Debug)]
pub struct CollectionToggle {
}

#[derive(Clone, PartialEq, Debug)]
pub struct AuthorizationData {
}

#[derive(Clone, PartialEq, Debug)]
pub struct CollectionDetailsToggle {
}

#[derive(Clone, PartialEq, Debug)]
pub struct UsesToggle {
}

#[derive(Clone, PartialEq, Debug)]
pub struct TokenStandard {
}

#[derive(Clone, PartialEq, Debug)]
pub struct DataV2 {
    pub name: String,
    pub symbol: String,
    pub uri: String,
    pub seller_fee_basis_points: u32,
    pub creators: Vec<Creator>,
    pub collection: Option<Collection>,
    pub uses: Option<Uses>,
}

#[derive(Clone, PartialEq, Debug)]
pub struct Uses {
    pub use_method: i32,
    pub remaining: u64,
    pub total: u64,
}

#[derive(Clone, PartialEq, Debug)]
pub struct Collection {
    pub verified: bool,
    pub key: String,
}

#[derive(Clone, PartialEq, Debug)]
pub struct CollectionDetails {
    pub version: Option<Version>,
}

#[derive(Clone, PartialEq, Debug)]
pub enum Version {
    V1(CollectionDetailsV1),
    V2(CollectionDetailsV2),
}

#[derive(Clone, PartialEq, Debug)]
pub struct CollectionDetailsV1 {
    pub size: u64,
}

#[derive(Clone, PartialEq, Debug)]
pub struct CollectionDetailsV2 {
    pub padding: Vec<u64>,
}

#[derive(Clone, PartialEq, Debug)]
pub struct Creator {
    pub address: String,
    pub verified: bool,
    pub share: u32,
}

#[derive(Clone, Copy, Debug, PartialEq, Eq, Hash)]
pub enum UseMethod {
    Null,
    Burn,
    Multiple,
    Single,
}

#[derive(Clone, Copy, Debug, PartialEq, Eq, Hash)]
pub enum Toggle {
    Null,
    Keep,
    Clear,
    Apply,
}

impl UseMethod {
    /// The stream's name for this use method.
    pub fn as_str_name(&self) -> (r: &'static str)
        ensures
            *self is Null ==> r@ == "USE_METHOD_NULL"@,
            *self is Burn ==> r@ == "BURN"@,
            *self is Multiple ==> r@ == "MULTIPLE"@,
            *self is Single ==> r@ == "SINGLE"@,
    {
        match self {
            UseMethod::Null => "USE_METHOD_NULL",
            UseMethod::Burn => "BURN",
            UseMethod::Multiple => "MULTIPLE",
            UseMethod::Single => "SINGLE",
        }
    }

    /// The use method a stream field name denotes: some exactly on the
    /// four stable names, so the round trip through `as_str_name` returns
    /// the method it started from.
    pub fn from_str_name(value: &str) -> (r: Option<Self>)
        ensures
            r is Some <==> (value@ == "USE_METHOD_NULL"@ || value@ == "BURN"@ || value@
                == "MULTIPLE"@ || value@ == "SINGLE"@),
            value@ == "USE_METHOD_NULL"@ ==> r == Some(UseMethod::Null),
            value@ == "BURN"@ ==> r == Some(UseMethod::Burn),
            value@ == "MULTIPLE"@ ==> r == Some(UseMethod::Multiple),
            value@ == "SINGLE"@ ==> r == Some(UseMethod::Single),
    {
        proof {
            reveal_strlit("USE_METHOD_NULL");
            reveal_strlit("BURN");
            reveal_strlit("MULTIPLE");
            reveal_strlit("SINGLE");
            assert("USE_METHOD_NULL"@.len() == 15);
            assert("BURN"@.len() == 4);
            assert("MULTIPLE"@.len() == 8);
            assert("SINGLE"@.len() == 6);
        }
        if crate::log::str_eq(value, "USE_METHOD_NULL") {
            Some(UseMethod::Null)
        } else if crate::log::str_eq(value, "BURN") {
            Some(UseMethod::Burn)
        } else if crate::log::str_eq(value, "MULTIPLE") {
            Some(UseMethod::Multiple)
        } else if crate::log::str_eq(value, "SINGLE") {
            Some(UseMethod::Single)
        } else {
            None
        }
    }
}

impl Toggle {
    /// The stream's name for this toggle choice.
    pub fn as_str_name(&self) -> (r: &'static str)
        ensures
            *self is Null ==> r@ == "TOGGLE_NULL"@,
            *self is Keep ==> r@ == "NONE"@,
            *self is Clear ==> r@ == "CLEAR"@,
            *self is Apply ==> r@ == "SET"@,
    {
        match self {
            Toggle::Null => "TOGGLE_NULL",
            Toggle::Keep => "NONE",
            Toggle::Clear => "CLEAR",
            Toggle::Apply => "SET",
        }
    }

    /// The toggle choice a stream field name denotes: some exactly on the
    /// four stable names, so the round trip through `as_str_name` returns
    /// the choice it started from.
    pub fn from_str_name(value: &str) -> (r: Option<Self>)
        ensures
            r is Some <==> (value@ == "TOGGLE_NULL"@ || value@ == "NONE"@ || value@ == "CLEAR"@
                || value@ == "SET"@),
            value@ == "TOGGLE_NULL"@ ==> r == Some(Toggle::Null),
            value@ == "NONE"@ ==> r == Some(Toggle::Keep),
            value@ == "CLEAR"@ ==> r == Some(Toggle::Clear),
            value@ == "SET"@ ==> r == Some(Toggle::Apply),
    {
        proof {
            reveal_strlit("TOGGLE_NULL");
            reveal_strlit("NONE");
            reveal_strlit("CLEAR");
            reveal_strlit("SET");
            assert("TOGGLE_NULL"@.len() == 11);
            assert("NONE"@.len() == 4);
            assert("CLEAR"@.len() == 5);
            assert("SET"@.len() == 3);
        }
        if crate::log::str_eq(value, "TOGGLE_NULL") {
            Some(Toggle::Null)
        } else if crate::log::str_eq(value, "NONE") {
            Some(Toggle::Keep)
        } else if crate::log::str_eq(value, "CLEAR") {
            Some(Toggle::Clear)
        } else if crate::log::str_eq(value, "SET") {
            Some(Toggle::Apply)
        } else {
            None
        }
    }
}

} // verus!
