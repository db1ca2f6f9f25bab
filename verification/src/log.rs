//! Classification of raw program-log lines.
//!
//! One raw log line is classified, purely syntactically, as one of six
//! shapes: `Program log: <text>`, `Program data: <base64>`,
//! `Program return: <program> <base64>`, `Program <id> invoke [<depth>]`
//! (exactly four whitespace-separated tokens, the third being `invoke`),
//! `Program <id> success` (exactly three tokens, the last being `success`),
//! or an unrecognized line, which is passed through untouched.
//!
//! Tokens are separated by runs of space, tab, carriage return and line
//! feed; other Unicode whitespace does not separate, so a line using, say,
//! a vertical tab tokenizes as one word.

use vstd::prelude::*;

verus! {

/// A whitespace separator between two tokens of a log line: space, tab,
/// carriage return or line feed, and nothing else — wider Unicode
/// whitespace does not separate.
pub open spec fn is_space(c: char) -> bool {
    c == ' ' || c == '\t' || c == '\n' || c == '\r'
}

/// The first position at or after `i` that ends the token running there:
/// the position of the next separator, or the end of the line.
pub open spec fn token_end(s: Seq<char>, i: int) -> int
    decreases s.len() - i,
{
    if i < 0 || i >= s.len() || is_space(s[i]) {
        i
    } else {
        token_end(s, i + 1)
    }
}

pub proof fn lemma_token_end_bounds(s: Seq<char>, i: int)
    requires
        0 <= i <= s.len(),
    ensures
        i <= token_end(s, i) <= s.len(),
        i < s.len() && !is_space(s[i]) ==> token_end(s, i) > i,
    decreases s.len() - i,
{
    if i < s.len() && !is_space(s[i]) {
        lemma_token_end_bounds(s, i + 1);
    }
}

/// The whitespace-separated tokens of `s`, from position `i` on.
pub open spec fn tokens_from(s: Seq<char>, i: int) -> Seq<Seq<char>>
    decreases s.len() - i,
        when 0 <= i
        via tokens_from_decreases
{
    if i >= s.len() {
        seq![]
    } else if is_space(s[i]) {
        tokens_from(s, i + 1)
    } else {
        seq![s.subrange(i, token_end(s, i))] + tokens_from(s, token_end(s, i))
    }
}

#[via_fn]
proof fn tokens_from_decreases(s: Seq<char>, i: int) {
    if 0 <= i < s.len() && !is_space(s[i]) {
        lemma_token_end_bounds(s, i);
    }
}

/// The whitespace-separated tokens of a whole line.
pub open spec fn tokens(s: Seq<char>) -> Seq<Seq<char>> {
    tokens_from(s, 0)
}

/// `s` begins with `p`.
pub open spec fn starts_with(s: Seq<char>, p: Seq<char>) -> bool {
    p.len() <= s.len() && s.subrange(0, p.len() as int) == p
}

/// `s` ends with `p`.
pub open spec fn ends_with(s: Seq<char>, p: Seq<char>) -> bool {
    p.len() <= s.len() && s.subrange(s.len() - p.len(), s.len() as int) == p
}

/// The six shapes a log line can take.
#[derive(Clone, Copy, PartialEq, Eq, Structural, Debug)]
pub enum LogKind {
    Invoke,
    Success,
    Return,
    Data,
    Program,
    Unknown,
}

/// How one raw log line is classified, checked in this precedence order.
pub open spec fn log_kind(s: Seq<char>) -> LogKind {
    if starts_with(s, "Program log: "@) {
        LogKind::Program
    } else if starts_with(s, "Program data: "@) {
        LogKind::Data
    } else if starts_with(s, "Program return: "@) {
        LogKind::Return
    } else if tokens(s).len() == 4 && starts_with(s, "Program"@) && tokens(s)[2] == "invoke"@ {
        LogKind::Invoke
    } else if tokens(s).len() == 3 && starts_with(s, "Program"@) && ends_with(s, "success"@) {
        LogKind::Success
    } else {
        LogKind::Unknown
    }
}

/// Whether `c` separates tokens.
fn is_space_char(c: char) -> (r: bool)
    ensures
        r == is_space(c),
{
    c == ' ' || c == '\t' || c == '\n' || c == '\r'
}

/// `s` begins with `p`, decided character by character.
pub fn str_starts_with(s: &str, p: &str) -> (r: bool)
    ensures
        r == starts_with(s@, p@),
{
    let n = p.unicode_len();
    if s.unicode_len() < n {
        return false;
    }
    let mut i: usize = 0;
    while i < n
        invariant
            i <= n,
            n == p@.len() <= s@.len(),
            forall|j: int| 0 <= j < i ==> s@[j] == p@[j],
        decreases n - i,
    {
        if s.get_char(i) != p.get_char(i) {
            assert(s@.subrange(0, n as int)[i as int] != p@[i as int]);
            return false;
        }
        i += 1;
    }
    assert(s@.subrange(0, n as int) =~= p@);
    true
}

/// `s` equals `p`, decided character by character.
pub fn str_eq(s: &str, p: &str) -> (r: bool)
    ensures
        r == (s@ == p@),
{
    let n = p.unicode_len();
    if s.unicode_len() != n {
        assert(s@.len() != p@.len());
        return false;
    }
    let mut i: usize = 0;
    while i < n
        invariant
            i <= n,
            n == p@.len() == s@.len(),
            forall|j: int| 0 <= j < i ==> s@[j] == p@[j],
        decreases n - i,
    {
        if s.get_char(i) != p.get_char(i) {
            return false;
        }
        i += 1;
    }
    assert(s@ =~= p@);
    true
}

/// `s` ends with `p`, decided character by character.
pub fn str_ends_with(s: &str, p: &str) -> (r: bool)
    ensures
        r == ends_with(s@, p@),
{
    let n = p.unicode_len();
    let m = s.unicode_len();
    if m < n {
        return false;
    }
    let off = m - n;
    let mut i: usize = 0;
    while i < n
        invariant
            i <= n,
            n == p@.len(),
            m == s@.len(),
            n <= m,
            off == m - n,
            forall|j: int| 0 <= j < i ==> s@[off + j] == p@[j],
        decreases n - i,
    {
        if s.get_char(off + i) != p.get_char(i) {
            assert(s@.subrange(off as int, m as int)[i as int] != p@[i as int]);
            return false;
        }
        i += 1;
    }
    assert(s@.subrange(off as int, m as int) =~= p@);
    true
}

/// The token list of `s`, as subrange bounds.
pub open spec fn bounds_tokens(bounds: Seq<(usize, usize)>, s: Seq<char>) -> Seq<Seq<char>> {
    bounds.map(|k: int, b: (usize, usize)| s.subrange(b.0 as int, b.1 as int))
}

/// Finds the whitespace-separated tokens of `s`, as index bounds.
pub fn tokenize(s: &str) -> (bounds: Vec<(usize, usize)>)
    ensures
        bounds_tokens(bounds@, s@) == tokens(s@),
        forall|k: int|
            0 <= k < bounds@.len() ==> (#[trigger] bounds@[k]).0 < bounds@[k].1 <= s@.len(),
{
    let n = s.unicode_len();
    let mut bounds: Vec<(usize, usize)> = Vec::new();
    let mut i: usize = 0;
    while i < n
        invariant
            i <= n,
            n == s@.len(),
            tokens(s@) == bounds_tokens(bounds@, s@) + tokens_from(s@, i as int),
            forall|k: int|
                0 <= k < bounds@.len() ==> (#[trigger] bounds@[k]).0 < bounds@[k].1 <= s@.len(),
        decreases n - i,
    {
        if is_space_char(s.get_char(i)) {
            i += 1;
        } else {
            let start = i;
            let mut j = i + 1;
            while j < n && !is_space_char(s.get_char(j))
                invariant
                    start < j <= n,
                    n == s@.len(),
                    token_end(s@, start as int) == token_end(s@, j as int),
                decreases n - j,
            {
                j += 1;
            }
            assert(token_end(s@, j as int) == j);
            let ghost old_bounds = bounds@;
            bounds.push((start, j));
            proof {
                assert(bounds_tokens(bounds@, s@) =~= bounds_tokens(old_bounds, s@)
                    + seq![s@.subrange(start as int, j as int)]);
                assert(tokens_from(s@, start as int) == seq![s@.subrange(start as int, j as int)]
                    + tokens_from(s@, j as int));
            }
            i = j;
        }
    }
    assert(tokens_from(s@, n as int) =~= Seq::<Seq<char>>::empty());
    assert(bounds_tokens(bounds@, s@) =~= tokens(s@));
    bounds
}

/// One token of `s` equals `p`, decided character by character.
pub fn token_eq(s: &str, a: usize, b: usize, p: &str) -> (r: bool)
    requires
        a <= b <= s@.len(),
    ensures
        r == (s@.subrange(a as int, b as int) == p@),
{
    let n = p.unicode_len();
    if b - a != n {
        assert(s@.subrange(a as int, b as int).len() != p@.len());
        return false;
    }
    let mut i: usize = 0;
    while i < n
        invariant
            i <= n,
            n == p@.len(),
            a <= b <= s@.len(),
            b - a == n,
            forall|j: int| 0 <= j < i ==> s@[a + j] == p@[j],
        decreases n - i,
    {
        if s.get_char(a + i) != p.get_char(i) {
            assert(s@.subrange(a as int, b as int)[i as int] != p@[i as int]);
            return false;
        }
        i += 1;
    }
    assert(s@.subrange(a as int, b as int) =~= p@);
    true
}

/// The raw lines of a sequence of classified logs.
pub open spec fn log_views(ls: Seq<Log>) -> Seq<Seq<char>> {
    Seq::new(ls.len(), |k: int| ls[k]@)
}

/// Every value of the sequence is classified as its raw line demands.
pub open spec fn logs_wf(ls: Seq<Log>) -> bool {
    forall|k: int| 0 <= k < ls.len() ==> (#[trigger] ls[k]).wf()
}

/// A line of the shape `Program <id> invoke [<depth>]`.
#[derive(Debug)]
pub struct InvokeLog {
    pub log: String,
}

impl InvokeLog {
    /// Wraps one raw log line.
    pub fn new(log: &String) -> (r: Self)
        ensures
            r.log@ == log@,
    {
        Self { log: log.clone() }
    }
}

/// A line of the shape `Program <id> success`.
#[derive(Debug)]
pub struct SuccessLog {
    pub log: String,
}

impl SuccessLog {
    /// Wraps one raw log line.
    pub fn new(log: &String) -> (r: Self)
        ensures
            r.log@ == log@,
    {
        Self { log: log.clone() }
    }
}

/// A line of the shape `Program return: <program> <base64>`.
#[derive(Debug)]
pub struct ReturnLog {
    pub log: String,
}

impl ReturnLog {
    /// Wraps one raw log line.
    pub fn new(log: &String) -> (r: Self)
        ensures
            r.log@ == log@,
    {
        Self { log: log.clone() }
    }
}

/// A line of the shape `Program data: <base64>`.
#[derive(Debug)]
pub struct DataLog {
    pub log: String,
}

impl DataLog {
    /// Wraps one raw log line.
    pub fn new(log: &String) -> (r: Self)
        ensures
            r.log@ == log@,
    {
        Self { log: log.clone() }
    }
}

/// A line of the shape `Program log: <text>`.
#[derive(Debug)]
pub struct ProgramLog {
    pub log: String,
}

/// A line of no recognized shape.
#[derive(Debug)]
pub struct UnknownLog {
    pub log: String,
}

impl UnknownLog {
    /// Wraps one raw log line.
    pub fn new(log: &String) -> (r: Self)
        ensures
            r.log@ == log@,
    {
        Self { log: log.clone() }
    }
}

/// What base64 decoding of a text yields: the decoded bytes, or `None`
/// when the text is not valid base64 of the standard alphabet.  A pure
/// function of the text.
pub uninterp spec fn base64_decoded(text: Seq<char>) -> Option<Seq<u8>>;

/// Relies on base64's standard-alphabet decode, failing exactly on text
/// that is not valid base64; the result depends on the text alone.
#[verifier::external_body]
fn b64_decode(text: &str) -> (r: Option<Vec<u8>>)
    ensures
        r is Some <==> base64_decoded(text@) is Some,
        r matches Some(b) ==> b@ == base64_decoded(text@)->0,
{
    <base64::engine::general_purpose::GeneralPurpose as base64::Engine>::decode(
        &base64::engine::general_purpose::STANDARD,
        text,
    ).ok()
}

/// The line's token at the given bounds, as owned text.
fn token_text(s: &str, a: usize, b: usize) -> (r: String)
    requires
        a <= b <= s@.len(),
    ensures
        r@ == s@.subrange(a as int, b as int),
{
    s.substring_char(a, b).to_owned()
}

impl ProgramLog {
    /// The free text after the `Program log: ` prefix; a line of another
    /// shape, or one with nothing after the prefix, yields an error.
    pub fn message(&self) -> (r: Result<String, String>)
        ensures
            r is Ok <==> (starts_with(self.log@, "Program log: "@) && self.log@.len() > 13),
            r matches Ok(m) ==> m@ == self.log@.skip(13),
    {
        proof {
            reveal_strlit("Program log: ");
        }
        let n = self.log.as_str().unicode_len();
        if str_starts_with(self.log.as_str(), "Program log: ") && n > 13 {
            let rest = token_text(self.log.as_str(), 13, n);
            proof {
                assert(rest@ =~= self.log@.skip(13));
            }
            Ok(rest)
        } else {
            Err(String::from_str("Error parsing ProgramLog."))
        }
    }
}

impl InvokeLog {
    /// The invoked program's text: the second token of a line of the
    /// `Program <id> invoke [<depth>]` shape; a line of another shape
    /// yields an error.
    pub fn program_id(&self) -> (r: Result<String, String>)
        ensures
            r is Ok <==> log_kind(self.log@) is Invoke,
            r matches Ok(t) ==> t@ == tokens(self.log@)[1],
    {
        let s = self.log.as_str();
        if str_starts_with(s, "Program log: ") || str_starts_with(s, "Program data: ")
            || str_starts_with(s, "Program return: ") {
            return Err(String::from_str("Error parsing InvokeLog."));
        }
        let bounds = tokenize(s);
        if bounds.len() != 4 || !str_starts_with(s, "Program") {
            return Err(String::from_str("Error parsing InvokeLog."));
        }
        let (a2, b2) = bounds[2];
        proof {
            assert(tokens(self.log@)[2] == self.log@.subrange(bounds@[2].0 as int, bounds@[2].1 as int));
            assert(tokens(self.log@)[1] == self.log@.subrange(bounds@[1].0 as int, bounds@[1].1 as int));
        }
        if !token_eq(s, a2, b2, "invoke") {
            return Err(String::from_str("Error parsing InvokeLog."));
        }
        let (a1, b1) = bounds[1];
        Ok(token_text(s, a1, b1))
    }

    /// The recorded invocation depth: the bracketed decimal in the fourth
    /// token of a line of the invoke shape.  A line of another shape, a
    /// token that is not `[<digits>]`, or a depth beyond the 32-bit
    /// range yields an error, never a panic.
    pub fn invoke_depth(&self) -> (r: Result<u32, String>)
        ensures
            r is Ok <==> (log_kind(self.log@) is Invoke && {
                let t = tokens(self.log@)[3];
                &&& t.len() >= 3
                &&& t[0] == '['
                &&& t[t.len() - 1] == ']'
                &&& crate::decimal::is_digits(t.subrange(1, t.len() - 1))
                &&& crate::decimal::digits_value(t.subrange(1, t.len() - 1)) <= u32::MAX
            }),
            r matches Ok(d) ==> d == crate::decimal::digits_value(
                tokens(self.log@)[3].subrange(1, tokens(self.log@)[3].len() - 1),
            ),
    {
        let s = self.log.as_str();
        if str_starts_with(s, "Program log: ") || str_starts_with(s, "Program data: ")
            || str_starts_with(s, "Program return: ") {
            return Err(String::from_str("Error parsing InvokeLog."));
        }
        let bounds = tokenize(s);
        if bounds.len() != 4 || !str_starts_with(s, "Program") {
            return Err(String::from_str("Error parsing InvokeLog."));
        }
        let (a2, b2) = bounds[2];
        proof {
            assert(tokens(self.log@)[2] == self.log@.subrange(bounds@[2].0 as int, bounds@[2].1 as int));
            assert(tokens(self.log@)[3] == self.log@.subrange(bounds@[3].0 as int, bounds@[3].1 as int));
        }
        if !token_eq(s, a2, b2, "invoke") {
            return Err(String::from_str("Error parsing InvokeLog."));
        }
        let (a3, b3) = bounds[3];
        let ghost t = tokens(self.log@)[3];
        if b3 - a3 < 3 {
            return Err(String::from_str("Error parsing InvokeLog."));
        }
        if s.get_char(a3) != '[' || s.get_char(b3 - 1) != ']' {
            proof {
                assert(t[0] == self.log@[a3 as int]);
                assert(t[t.len() - 1] == self.log@[b3 - 1]);
            }
            return Err(String::from_str("Error parsing InvokeLog."));
        }
        let inner = s.substring_char(a3 + 1, b3 - 1);
        proof {
            assert(inner@ =~= t.subrange(1, t.len() - 1));
        }
        match crate::decimal::parse_u64(inner) {
            Some(v) => {
                if v <= u32::MAX as u64 {
                    Ok(v as u32)
                } else {
                    Err(String::from_str("Error parsing InvokeLog."))
                }
            },
            None => Err(String::from_str("Error parsing InvokeLog.")),
        }
    }
}

impl SuccessLog {
    /// The finishing program's text: the second token of a line of the
    /// `Program <id> success` shape; a line of another shape yields an
    /// error.
    pub fn program_id(&self) -> (r: Result<String, String>)
        ensures
            r is Ok <==> log_kind(self.log@) is Success,
            r matches Ok(t) ==> t@ == tokens(self.log@)[1],
    {
        let s = self.log.as_str();
        if str_starts_with(s, "Program log: ") || str_starts_with(s, "Program data: ")
            || str_starts_with(s, "Program return: ") {
            return Err(String::from_str("Error parsing SuccessLog."));
        }
        let bounds = tokenize(s);
        if bounds.len() != 3 || !str_starts_with(s, "Program") || !str_ends_with(s, "success") {
            return Err(String::from_str("Error parsing SuccessLog."));
        }
        let (a1, b1) = bounds[1];
        proof {
            assert(tokens(self.log@)[1] == self.log@.subrange(bounds@[1].0 as int, bounds@[1].1 as int));
        }
        Ok(token_text(s, a1, b1))
    }
}

impl DataLog {
    /// The decoded payload after the `Program data: ` prefix; a line of
    /// another shape is a parse error, and a remainder that is not
    /// base64 surfaces as a data error, not a panic.
    pub fn data(&self) -> (r: Result<Vec<u8>, String>)
        ensures
            r is Ok <==> (starts_with(self.log@, "Program data: "@) && base64_decoded(
                self.log@.skip(14),
            ) is Some),
            r matches Ok(b) ==> b@ == base64_decoded(self.log@.skip(14))->0,
    {
        proof {
            reveal_strlit("Program data: ");
        }
        let s = self.log.as_str();
        if !str_starts_with(s, "Program data: ") {
            return Err(String::from_str("Error parsing DataLog."));
        }
        let n = s.unicode_len();
        let rest = s.substring_char(14, n);
        proof {
            assert(rest@ =~= self.log@.skip(14));
        }
        match b64_decode(rest) {
            Some(bytes) => Ok(bytes),
            None => Err(String::from_str("Base64 decoding error.")),
        }
    }
}

impl ReturnLog {
    /// The returning program's text: the third token of a line of the
    /// `Program return: <program> <base64>` shape, with exactly those
    /// four tokens; a line of another shape yields an error.
    pub fn program_id(&self) -> (r: Result<String, String>)
        ensures
            r is Ok <==> (starts_with(self.log@, "Program return: "@) && tokens(self.log@).len()
                == 4),
            r matches Ok(t) ==> t@ == tokens(self.log@)[2],
    {
        let s = self.log.as_str();
        if !str_starts_with(s, "Program return: ") {
            return Err(String::from_str("Error parsing ReturnLog."));
        }
        let bounds = tokenize(s);
        if bounds.len() != 4 {
            return Err(String::from_str("Error parsing ReturnLog."));
        }
        let (a2, b2) = bounds[2];
        proof {
            assert(tokens(self.log@)[2] == self.log@.subrange(bounds@[2].0 as int, bounds@[2].1 as int));
        }
        Ok(token_text(s, a2, b2))
    }

    /// The decoded payload: the fourth token of a line of the return
    /// shape, base64-decoded; a remainder that is not base64 surfaces as
    /// a data error.
    pub fn data(&self) -> (r: Result<Vec<u8>, String>)
        ensures
            r is Ok <==> (starts_with(self.log@, "Program return: "@) && tokens(self.log@).len()
                == 4 && base64_decoded(tokens(self.log@)[3]) is Some),
            r matches Ok(b) ==> b@ == base64_decoded(tokens(self.log@)[3])->0,
    {
        let s = self.log.as_str();
        if !str_starts_with(s, "Program return: ") {
            return Err(String::from_str("Error parsing ReturnLog."));
        }
        let bounds = tokenize(s);
        if bounds.len() != 4 {
            return Err(String::from_str("Error parsing ReturnLog."));
        }
        let (a3, b3) = bounds[3];
        proof {
            assert(tokens(self.log@)[3] == self.log@.subrange(bounds@[3].0 as int, bounds@[3].1 as int));
        }
        let tok = s.substring_char(a3, b3);
        proof {
            assert(tok@ =~= tokens(self.log@)[3]);
        }
        match b64_decode(tok) {
            Some(bytes) => Ok(bytes),
            None => Err(String::from_str("Base64 decoding error.")),
        }
    }
}

/// A classified log line.  The variant records the shape of the raw line it
/// carries; the view of a `Log` is the raw line itself.
#[derive(Debug)]
pub enum Log {
    Invoke(InvokeLog),
    Success(SuccessLog),
    Return(ReturnLog),
    Data(DataLog),
    Program(ProgramLog),
    Unknown(UnknownLog),
}

impl View for Log {
    type V = Seq<char>;

    open spec fn view(&self) -> Seq<char> {
        match self {
            Log::Invoke(l) => l.log@,
            Log::Success(l) => l.log@,
            Log::Return(l) => l.log@,
            Log::Data(l) => l.log@,
            Log::Program(l) => l.log@,
            Log::Unknown(l) => l.log@,
        }
    }
}

impl Log {
    /// The shape this value claims for its line.
    pub open spec fn kind(self) -> LogKind {
        match self {
            Log::Invoke(_) => LogKind::Invoke,
            Log::Success(_) => LogKind::Success,
            Log::Return(_) => LogKind::Return,
            Log::Data(_) => LogKind::Data,
            Log::Program(_) => LogKind::Program,
            Log::Unknown(_) => LogKind::Unknown,
        }
    }

    /// The variant is the one the raw line classifies to.
    pub open spec fn wf(self) -> bool {
        self.kind() == log_kind(self@)
    }

    /// Classifies one raw log line.
    pub fn new(log: &String) -> (r: Log)
        ensures
            r@ == log@,
            r.wf(),
    {
        if str_starts_with(log.as_str(), "Program log: ") {
            return Log::Program(ProgramLog { log: log.clone() });
        }
        if str_starts_with(log.as_str(), "Program data: ") {
            return Log::Data(DataLog { log: log.clone() });
        }
        if str_starts_with(log.as_str(), "Program return: ") {
            return Log::Return(ReturnLog { log: log.clone() });
        }
        let bounds = tokenize(log.as_str());
        if bounds.len() == 4 && str_starts_with(log.as_str(), "Program") {
            let (a, b) = bounds[2];
            proof {
                assert(tokens(log@)[2] == log@.subrange(bounds@[2].0 as int, bounds@[2].1 as int));
            }
            if token_eq(log.as_str(), a, b, "invoke") {
                return Log::Invoke(InvokeLog { log: log.clone() });
            }
            return Log::Unknown(UnknownLog { log: log.clone() });
        }
        if bounds.len() == 3 && str_starts_with(log.as_str(), "Program")
            && str_ends_with(log.as_str(), "success") {
            return Log::Success(SuccessLog { log: log.clone() });
        }
        Log::Unknown(UnknownLog { log: log.clone() })
    }

    /// The line has the `Program <id> success` shape.
    pub fn is_success(&self) -> (r: bool)
        ensures
            r == (self.kind() is Success),
    {
        matches!(self, Log::Success(_))
    }

    /// The line has the `Program <id> invoke [<depth>]` shape.
    pub fn is_invoke(&self) -> (r: bool)
        ensures
            r == (self.kind() is Invoke),
    {
        matches!(self, Log::Invoke(_))
    }

    /// The line has the `Program return: ..` shape.
    pub fn is_return(&self) -> (r: bool)
        ensures
            r == (self.kind() is Return),
    {
        matches!(self, Log::Return(_))
    }

    /// The line has the `Program data: ..` shape.
    pub fn is_data(&self) -> (r: bool)
        ensures
            r == (self.kind() is Data),
    {
        matches!(self, Log::Data(_))
    }

    /// The line has the `Program log: ..` shape.
    pub fn is_program(&self) -> (r: bool)
        ensures
            r == (self.kind() is Program),
    {
        matches!(self, Log::Program(_))
    }

    /// The line has no recognized shape.
    pub fn is_unknown(&self) -> (r: bool)
        ensures
            r == (self.kind() is Unknown),
    {
        matches!(self, Log::Unknown(_))
    }

    /// A copy of this value, equal to it line for line.
    pub fn duplicate(&self) -> (r: Log)
        ensures
            r@ == self@,
            r.kind() == self.kind(),
    {
        match self {
            Log::Invoke(l) => Log::Invoke(InvokeLog { log: l.log.clone() }),
            Log::Success(l) => Log::Success(SuccessLog { log: l.log.clone() }),
            Log::Return(l) => Log::Return(ReturnLog { log: l.log.clone() }),
            Log::Data(l) => Log::Data(DataLog { log: l.log.clone() }),
            Log::Program(l) => Log::Program(ProgramLog { log: l.log.clone() }),
            Log::Unknown(l) => Log::Unknown(UnknownLog { log: l.log.clone() }),
        }
    }
}

} // verus!
