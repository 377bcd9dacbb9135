//! The query marshaller: converts a raw request query string into a typed
//! payload.
//!
//! The value of the first key/value pair of the query string is parsed as a
//! flat object of scalars — `{"key": number-or-string, ...}` — into a
//! [`QueryData`]. Absence of a query string or malformed content yields an
//! empty payload; this path never fails.

use vstd::prelude::*;

use crate::str_eq;

verus! {

/// One scalar query value: a number, carried as its literal text, or a
/// string, carried decoded.
pub enum QueryItem {
    Number(String),
    String(String),
}

/// The mathematical value of a [`QueryItem`].
pub enum QueryItemView {
    Number(Seq<char>),
    String(Seq<char>),
}

impl View for QueryItem {
    type V = QueryItemView;

    closed spec fn view(&self) -> QueryItemView {
        match self {
            QueryItem::Number(s) => QueryItemView::Number(s@),
            QueryItem::String(s) => QueryItemView::String(s@),
        }
    }
}

/// The mapping an association list denotes, later entries overriding
/// earlier ones.
pub open spec fn spec_assoc_map(s: Seq<(String, QueryItem)>) -> Map<Seq<char>, QueryItemView>
    decreases s.len(),
{
    if s.len() == 0 {
        Map::empty()
    } else {
        spec_assoc_map(s.drop_last()).insert(s.last().0@, s.last().1@)
    }
}

/// A typed query payload: an unordered mapping from key to scalar value.
pub struct QueryData {
    inner: Vec<(String, QueryItem)>,
}

impl View for QueryData {
    type V = Map<Seq<char>, QueryItemView>;

    closed spec fn view(&self) -> Map<Seq<char>, QueryItemView> {
        spec_assoc_map(self.inner@)
    }
}

impl QueryData {
    pub fn new() -> (r: Self)
        ensures
            r@ == Map::<Seq<char>, QueryItemView>::empty(),
    {
        QueryData { inner: Vec::new() }
    }

    /// Binds `key` to `value`, overriding any earlier binding of the key.
    pub fn insert(&mut self, key: String, value: QueryItem)
        ensures
            final(self)@ == old(self)@.insert(key@, value@),
    {
        self.inner.push((key, value));
        proof {
            assert(self.inner@.drop_last() =~= old(self).inner@);
        }
    }

    /// Looks a key up, yielding the value it was last bound to.
    pub fn get(&self, key: &str) -> (r: Option<&QueryItem>)
        ensures
            (r is Some) <==> self@.contains_key(key@),
            r matches Some(v) ==> self@.contains_key(key@) && v@ == self@[key@],
    {
        let ghost s = self.inner@;
        let mut i: usize = self.inner.len();
        proof {
            assert(s.take(i as int) =~= s);
        }
        while i > 0
            invariant
                i <= s.len(),
                s == self.inner@,
                self@.contains_key(key@) <==> spec_assoc_map(s.take(i as int)).contains_key(key@),
                self@.contains_key(key@) ==> self@[key@] == spec_assoc_map(s.take(i as int))[key@],
            decreases i,
        {
            i = i - 1;
            proof {
                assert(s.take(i + 1).drop_last() =~= s.take(i as int));
                assert(s.take(i + 1).last() == s[i as int]);
            }
            if str_eq(self.inner[i].0.as_str(), key) {
                return Some(&self.inner[i].1);
            }
        }
        proof {
            assert(s.take(0) =~= Seq::<(String, QueryItem)>::empty());
        }
        None
    }

    /// The bindings as they were recorded, earliest first; a later entry
    /// for a key overrides an earlier one.
    pub fn entries(&self) -> (r: &Vec<(String, QueryItem)>)
        ensures
            spec_assoc_map(r@) == self@,
    {
        &self.inner
    }

    /// Whether the payload holds no binding at all.
    pub fn is_empty(&self) -> (r: bool)
        ensures
            r == (self@ == Map::<Seq<char>, QueryItemView>::empty()),
    {
        let r = self.inner.len() == 0;
        proof {
            if self.inner@.len() > 0 {
                assert(self@.contains_key(self.inner@.last().0@));
            }
        }
        r
    }
}

impl Default for QueryData {
    fn default() -> (r: Self)
        ensures
            r@ == Map::<Seq<char>, QueryItemView>::empty(),
    {
        QueryData::new()
    }
}

/// Relies on String::push: appends exactly the given character.
#[verifier::external_body]
fn push_char(s: &mut String, c: char)
    ensures
        final(s)@ == old(s)@.push(c),
{
    s.push(c);
}

/// Relies on char::from_u32: yields the character with the given code
/// point exactly when it is a unicode scalar value (not a surrogate, at
/// most 0x10FFFF).
#[verifier::external_body]
fn char_from_u32(u: u32) -> (r: Option<char>)
    ensures
        (r is Some) <==> (u < 0xD800 || (0xE000 <= u && u <= 0x10FFFF)),
        r matches Some(c) ==> c as u32 == u,
{
    char::from_u32(u)
}

/// The character with the given code point.
pub open spec fn spec_char_of(u: u32) -> char {
    choose|c: char| (#[trigger] (c as u32)) == u
}

/// Where the scanner stands inside a quoted string.
#[derive(Clone, Copy)]
pub enum StrSub {
    /// Plain characters.
    Body,
    /// Just after a backslash.
    Esc,
    /// Inside a four-digit hex escape: digits still missing, the value so
    /// far, and a pending high surrogate if this is the second half of a
    /// surrogate pair.
    Uni(u8, u32, Option<u32>),
    /// After a high surrogate, expecting the backslash of its partner.
    SurEsc(u32),
    /// After a high surrogate and backslash, expecting `u`.
    SurU(u32),
}

/// Where the scanner stands in the object grammar.
#[derive(Clone, Copy)]
pub enum ParseMode {
    /// Whitespace before the opening brace.
    LeadWs,
    /// Just inside the opening brace: a key or the closing brace may come.
    ObjStart,
    /// Scanning a key string.
    KeyStr(StrSub),
    /// After a key, expecting the colon.
    AfterKey,
    /// After the colon, expecting a value.
    AwaitValue,
    /// Scanning a string value.
    ValStr(StrSub),
    /// After a minus sign.
    NumMinus,
    /// After a leading zero.
    NumZero,
    /// Inside the integer digits.
    NumInt,
    /// Just after the decimal point.
    NumFracFirst,
    /// Inside the fraction digits.
    NumFrac,
    /// Just after `e` or `E`.
    NumExpStart,
    /// Just after the exponent sign.
    NumExpSign,
    /// Inside the exponent digits.
    NumExp,
    /// After a value, expecting a comma or the closing brace.
    AfterVal,
    /// After a comma, expecting the next key.
    AwaitKey,
    /// After the closing brace: only whitespace may follow.
    TailWs,
    /// The input is malformed.
    Failed,
}

/// The whole scanner state: the grammar position, the last completed key,
/// the token being built, and the bindings committed so far.
#[verifier::ext_equal]
pub struct ParseState {
    pub mode: ParseMode,
    pub key: Seq<char>,
    pub cur: Seq<char>,
    pub items: Map<Seq<char>, QueryItemView>,
}

pub open spec fn is_ws_char(c: char) -> bool {
    c == ' ' || c == '\t' || c == '\n' || c == '\r'
}

pub open spec fn is_digit_char(c: char) -> bool {
    0x30 <= c as u32 <= 0x39
}

pub open spec fn spec_hex_val(c: char) -> Option<u32> {
    let u = c as u32;
    if 0x30 <= u <= 0x39 {
        Some((u - 0x30) as u32)
    } else if 0x41 <= u <= 0x46 {
        Some((u - 0x37) as u32)
    } else if 0x61 <= u <= 0x66 {
        Some((u - 0x57) as u32)
    } else {
        None
    }
}

/// What a single-character escape denotes.
pub open spec fn spec_escape_char(c: char) -> Option<char> {
    if c == '"' {
        Some('"')
    } else if c == '\\' {
        Some('\\')
    } else if c == '/' {
        Some('/')
    } else if c == 'b' {
        Some('\u{0008}')
    } else if c == 'f' {
        Some('\u{000C}')
    } else if c == 'n' {
        Some('\n')
    } else if c == 'r' {
        Some('\r')
    } else if c == 't' {
        Some('\t')
    } else {
        None
    }
}

pub open spec fn sp_mode(st: ParseState, m: ParseMode) -> ParseState {
    ParseState { mode: m, ..st }
}

pub open spec fn sp_fail(st: ParseState) -> ParseState {
    sp_mode(st, ParseMode::Failed)
}

pub open spec fn sp_push(st: ParseState, c: char, m: ParseMode) -> ParseState {
    ParseState { mode: m, cur: st.cur.push(c), ..st }
}

/// A finished key: it becomes the current key, and the token restarts.
pub open spec fn sp_key_done(st: ParseState) -> ParseState {
    ParseState { mode: ParseMode::AfterKey, key: st.cur, cur: Seq::empty(), ..st }
}

/// A finished string value: bound to the current key.
pub open spec fn sp_commit_str(st: ParseState) -> ParseState {
    ParseState {
        mode: ParseMode::AfterVal,
        key: st.key,
        cur: Seq::empty(),
        items: st.items.insert(st.key, QueryItemView::String(st.cur)),
    }
}

/// A finished number: its literal text is bound to the current key, and the
/// scanner moves to wherever its terminator leads.
pub open spec fn sp_commit_num(st: ParseState, m: ParseMode) -> ParseState {
    ParseState {
        mode: m,
        key: st.key,
        cur: Seq::empty(),
        items: st.items.insert(st.key, QueryItemView::Number(st.cur)),
    }
}

/// One step of the string scanner; `is_key` says whether the string is a
/// key or a value.
pub open spec fn sp_str_step(st: ParseState, c: char, sub: StrSub, is_key: bool) -> ParseState {
    let wrap = |s: StrSub|
        if is_key {
            ParseMode::KeyStr(s)
        } else {
            ParseMode::ValStr(s)
        };
    match sub {
        StrSub::Body => {
            if c == '"' {
                if is_key {
                    sp_key_done(st)
                } else {
                    sp_commit_str(st)
                }
            } else if c == '\\' {
                sp_mode(st, wrap(StrSub::Esc))
            } else if (c as u32) < 0x20 {
                sp_fail(st)
            } else {
                sp_push(st, c, wrap(StrSub::Body))
            }
        },
        StrSub::Esc => {
            if c == 'u' {
                sp_mode(st, wrap(StrSub::Uni(4, 0, None)))
            } else {
                match spec_escape_char(c) {
                    Some(e) => sp_push(st, e, wrap(StrSub::Body)),
                    None => sp_fail(st),
                }
            }
        },
        StrSub::Uni(left, acc, pending) => {
            match spec_hex_val(c) {
                None => sp_fail(st),
                Some(d) => {
                    let acc2 = ((acc * 16 + d) as u32);
                    if left > 1 {
                        sp_mode(st, wrap(StrSub::Uni((left - 1) as u8, acc2, pending)))
                    } else {
                        match pending {
                            None => {
                                if 0xD800 <= acc2 <= 0xDBFF {
                                    sp_mode(st, wrap(StrSub::SurEsc(acc2)))
                                } else if 0xDC00 <= acc2 <= 0xDFFF {
                                    sp_fail(st)
                                } else {
                                    sp_push(st, spec_char_of(acc2), wrap(StrSub::Body))
                                }
                            },
                            Some(hi) => {
                                if 0xDC00 <= acc2 <= 0xDFFF {
                                    let combined = ((0x10000 + (hi - 0xD800) * 0x400 + (acc2
                                        - 0xDC00)) as u32);
                                    sp_push(st, spec_char_of(combined), wrap(StrSub::Body))
                                } else {
                                    sp_fail(st)
                                }
                            },
                        }
                    }
                },
            }
        },
        StrSub::SurEsc(hi) => {
            if c == '\\' {
                sp_mode(st, wrap(StrSub::SurU(hi)))
            } else {
                sp_fail(st)
            }
        },
        StrSub::SurU(hi) => {
            if c == 'u' {
                sp_mode(st, wrap(StrSub::Uni(4, 0, Some(hi))))
            } else {
                sp_fail(st)
            }
        },
    }
}

/// One step of the scanner on one character.
pub open spec fn spec_step(st: ParseState, c: char) -> ParseState {
    match st.mode {
        ParseMode::LeadWs => {
            if is_ws_char(c) {
                st
            } else if c == '{' {
                sp_mode(st, ParseMode::ObjStart)
            } else {
                sp_fail(st)
            }
        },
        ParseMode::ObjStart => {
            if is_ws_char(c) {
                st
            } else if c == '"' {
                sp_mode(st, ParseMode::KeyStr(StrSub::Body))
            } else if c == '}' {
                sp_mode(st, ParseMode::TailWs)
            } else {
                sp_fail(st)
            }
        },
        ParseMode::KeyStr(sub) => sp_str_step(st, c, sub, true),
        ParseMode::AfterKey => {
            if is_ws_char(c) {
                st
            } else if c == ':' {
                sp_mode(st, ParseMode::AwaitValue)
            } else {
                sp_fail(st)
            }
        },
        ParseMode::AwaitValue => {
            if is_ws_char(c) {
                st
            } else if c == '"' {
                sp_mode(st, ParseMode::ValStr(StrSub::Body))
            } else if c == '-' {
                sp_push(st, c, ParseMode::NumMinus)
            } else if c == '0' {
                sp_push(st, c, ParseMode::NumZero)
            } else if is_digit_char(c) {
                sp_push(st, c, ParseMode::NumInt)
            } else {
                sp_fail(st)
            }
        },
        ParseMode::ValStr(sub) => sp_str_step(st, c, sub, false),
        ParseMode::NumMinus => {
            if c == '0' {
                sp_push(st, c, ParseMode::NumZero)
            } else if is_digit_char(c) {
                sp_push(st, c, ParseMode::NumInt)
            } else {
                sp_fail(st)
            }
        },
        ParseMode::NumZero => {
            if c == '.' {
                sp_push(st, c, ParseMode::NumFracFirst)
            } else if c == 'e' || c == 'E' {
                sp_push(st, c, ParseMode::NumExpStart)
            } else if is_ws_char(c) {
                sp_commit_num(st, ParseMode::AfterVal)
            } else if c == ',' {
                sp_commit_num(st, ParseMode::AwaitKey)
            } else if c == '}' {
                sp_commit_num(st, ParseMode::TailWs)
            } else {
                sp_fail(st)
            }
        },
        ParseMode::NumInt => {
            if is_digit_char(c) {
                sp_push(st, c, ParseMode::NumInt)
            } else if c == '.' {
                sp_push(st, c, ParseMode::NumFracFirst)
            } else if c == 'e' || c == 'E' {
                sp_push(st, c, ParseMode::NumExpStart)
            } else if is_ws_char(c) {
                sp_commit_num(st, ParseMode::AfterVal)
            } else if c == ',' {
                sp_commit_num(st, ParseMode::AwaitKey)
            } else if c == '}' {
                sp_commit_num(st, ParseMode::TailWs)
            } else {
                sp_fail(st)
            }
        },
        ParseMode::NumFracFirst => {
            if is_digit_char(c) {
                sp_push(st, c, ParseMode::NumFrac)
            } else {
                sp_fail(st)
            }
        },
        ParseMode::NumFrac => {
            if is_digit_char(c) {
                sp_push(st, c, ParseMode::NumFrac)
            } else if c == 'e' || c == 'E' {
                sp_push(st, c, ParseMode::NumExpStart)
            } else if is_ws_char(c) {
                sp_commit_num(st, ParseMode::AfterVal)
            } else if c == ',' {
                sp_commit_num(st, ParseMode::AwaitKey)
            } else if c == '}' {
                sp_commit_num(st, ParseMode::TailWs)
            } else {
                sp_fail(st)
            }
        },
        ParseMode::NumExpStart => {
            if c == '+' || c == '-' {
                sp_push(st, c, ParseMode::NumExpSign)
            } else if is_digit_char(c) {
                sp_push(st, c, ParseMode::NumExp)
            } else {
                sp_fail(st)
            }
        },
        ParseMode::NumExpSign => {
            if is_digit_char(c) {
                sp_push(st, c, ParseMode::NumExp)
            } else {
                sp_fail(st)
            }
        },
        ParseMode::NumExp => {
            if is_digit_char(c) {
                sp_push(st, c, ParseMode::NumExp)
            } else if is_ws_char(c) {
                sp_commit_num(st, ParseMode::AfterVal)
            } else if c == ',' {
                sp_commit_num(st, ParseMode::AwaitKey)
            } else if c == '}' {
                sp_commit_num(st, ParseMode::TailWs)
            } else {
                sp_fail(st)
            }
        },
        ParseMode::AfterVal => {
            if is_ws_char(c) {
                st
            } else if c == ',' {
                sp_mode(st, ParseMode::AwaitKey)
            } else if c == '}' {
                sp_mode(st, ParseMode::TailWs)
            } else {
                sp_fail(st)
            }
        },
        ParseMode::AwaitKey => {
            if is_ws_char(c) {
                st
            } else if c == '"' {
                sp_mode(st, ParseMode::KeyStr(StrSub::Body))
            } else {
                sp_fail(st)
            }
        },
        ParseMode::TailWs => {
            if is_ws_char(c) {
                st
            } else {
                sp_fail(st)
            }
        },
        ParseMode::Failed => st,
    }
}

/// Bounds the hex accumulator so one more digit cannot overflow.
pub open spec fn wf_sub(s: StrSub) -> bool {
    match s {
        StrSub::Uni(left, acc, pending) => {
            &&& 1 <= left <= 4
            &&& (left == 4 ==> acc == 0)
            &&& (left == 3 ==> acc < 0x10)
            &&& (left == 2 ==> acc < 0x100)
            &&& (left == 1 ==> acc < 0x1000)
            &&& (pending matches Some(h) ==> 0xD800 <= h <= 0xDBFF)
        },
        StrSub::SurEsc(h) => 0xD800 <= h <= 0xDBFF,
        StrSub::SurU(h) => 0xD800 <= h <= 0xDBFF,
        _ => true,
    }
}

pub open spec fn wf_state(st: ParseState) -> bool {
    match st.mode {
        ParseMode::KeyStr(sub) => wf_sub(sub),
        ParseMode::ValStr(sub) => wf_sub(sub),
        _ => true,
    }
}

pub open spec fn spec_init_state() -> ParseState {
    ParseState {
        mode: ParseMode::LeadWs,
        key: Seq::empty(),
        cur: Seq::empty(),
        items: Map::empty(),
    }
}

/// The scanner state after the first `n` characters of `s`.
pub open spec fn spec_run(s: Seq<char>, n: int) -> ParseState
    decreases n,
{
    if n <= 0 {
        spec_init_state()
    } else {
        spec_step(spec_run(s, n - 1), s[n - 1])
    }
}

/// The bindings a whole input denotes, or nothing if it is malformed: the
/// input is accepted exactly when the scanner ends just after the closing
/// brace, possibly followed by whitespace.
pub open spec fn spec_parse_payload(s: Seq<char>) -> Option<Map<Seq<char>, QueryItemView>> {
    let st = spec_run(s, s.len() as int);
    if st.mode is TailWs {
        Some(st.items)
    } else {
        None
    }
}

/// The payload a raw value string yields: its bindings if it parses, the
/// empty payload otherwise.
pub open spec fn spec_extract_from_str(s: Seq<char>) -> Map<Seq<char>, QueryItemView> {
    match spec_parse_payload(s) {
        Some(m) => m,
        None => Map::empty(),
    }
}

fn is_ws(c: char) -> (r: bool)
    ensures
        r == is_ws_char(c),
{
    c == ' ' || c == '\t' || c == '\n' || c == '\r'
}

fn is_digit(c: char) -> (r: bool)
    ensures
        r == is_digit_char(c),
{
    let u = c as u32;
    0x30 <= u && u <= 0x39
}

fn hex_val(c: char) -> (r: Option<u32>)
    ensures
        r == spec_hex_val(c),
{
    let u = c as u32;
    if 0x30 <= u && u <= 0x39 {
        Some(u - 0x30)
    } else if 0x41 <= u && u <= 0x46 {
        Some(u - 0x37)
    } else if 0x61 <= u && u <= 0x66 {
        Some(u - 0x57)
    } else {
        None
    }
}

fn escape_char(c: char) -> (r: Option<char>)
    ensures
        r == spec_escape_char(c),
{
    if c == '"' {
        Some('"')
    } else if c == '\\' {
        Some('\\')
    } else if c == '/' {
        Some('/')
    } else if c == 'b' {
        Some('\u{0008}')
    } else if c == 'f' {
        Some('\u{000C}')
    } else if c == 'n' {
        Some('\n')
    } else if c == 'r' {
        Some('\r')
    } else if c == 't' {
        Some('\t')
    } else {
        None
    }
}

struct Parser {
    mode: ParseMode,
    key: String,
    cur: String,
    items: QueryData,
}

impl View for Parser {
    type V = ParseState;

    closed spec fn view(&self) -> ParseState {
        ParseState { mode: self.mode, key: self.key@, cur: self.cur@, items: self.items@ }
    }
}

proof fn lemma_char_of(c: char, u: u32)
    requires
        c as u32 == u,
    ensures
        spec_char_of(u) == c,
{
    assert(exists|x: char| (#[trigger] (x as u32)) == u) by {
        assert((c as u32) == u);
    }
    assert(spec_char_of(u) as u32 == u);
}

impl Parser {
    fn wrap_sub(&mut self, s: StrSub, is_key: bool)
        ensures
            final(self)@ == (ParseState {
                mode: if is_key {
                    ParseMode::KeyStr(s)
                } else {
                    ParseMode::ValStr(s)
                },
                ..old(self)@
            }),
    {
        if is_key {
            self.mode = ParseMode::KeyStr(s);
        } else {
            self.mode = ParseMode::ValStr(s);
        }
    }

    fn str_step(&mut self, c: char, sub: StrSub, is_key: bool)
        requires
            wf_sub(sub),
            old(self)@.mode == (if is_key {
                ParseMode::KeyStr(sub)
            } else {
                ParseMode::ValStr(sub)
            }),
        ensures
            final(self)@ == spec_step(old(self)@, c),
            wf_state(final(self)@),
    {
        match sub {
            StrSub::Body => {
                if c == '"' {
                    if is_key {
                        self.key = self.cur.clone();
                        self.cur = String::new();
                        self.mode = ParseMode::AfterKey;
                    } else {
                        let k = self.key.clone();
                        let v = self.cur.clone();
                        self.items.insert(k, QueryItem::String(v));
                        self.cur = String::new();
                        self.mode = ParseMode::AfterVal;
                    }
                } else if c == '\\' {
                    self.wrap_sub(StrSub::Esc, is_key);
                } else if (c as u32) < 0x20 {
                    self.mode = ParseMode::Failed;
                } else {
                    push_char(&mut self.cur, c);
                    self.wrap_sub(StrSub::Body, is_key);
                }
            },
            StrSub::Esc => {
                if c == 'u' {
                    self.wrap_sub(StrSub::Uni(4, 0, None), is_key);
                } else {
                    match escape_char(c) {
                        Some(e) => {
                            push_char(&mut self.cur, e);
                            self.wrap_sub(StrSub::Body, is_key);
                        },
                        None => {
                            self.mode = ParseMode::Failed;
                        },
                    }
                }
            },
            StrSub::Uni(left, acc, pending) => {
                match hex_val(c) {
                    None => {
                        self.mode = ParseMode::Failed;
                    },
                    Some(d) => {
                        let acc2: u32 = acc * 16 + d;
                        if left > 1 {
                            self.wrap_sub(StrSub::Uni(left - 1, acc2, pending), is_key);
                        } else {
                            match pending {
                                None => {
                                    if 0xD800 <= acc2 && acc2 <= 0xDBFF {
                                        self.wrap_sub(StrSub::SurEsc(acc2), is_key);
                                    } else if 0xDC00 <= acc2 && acc2 <= 0xDFFF {
                                        self.mode = ParseMode::Failed;
                                    } else {
                                        match char_from_u32(acc2) {
                                            Some(ch) => {
                                                proof {
                                                    lemma_char_of(ch, acc2);
                                                }
                                                push_char(&mut self.cur, ch);
                                                self.wrap_sub(StrSub::Body, is_key);
                                            },
                                            None => {
                                                proof {
                                                    assert(false);
                                                }
                                                self.mode = ParseMode::Failed;
                                            },
                                        }
                                    }
                                },
                                Some(hi) => {
                                    if 0xDC00 <= acc2 && acc2 <= 0xDFFF {
                                        let combined: u32 = 0x10000 + (hi - 0xD800) * 0x400 + (acc2
                                            - 0xDC00);
                                        match char_from_u32(combined) {
                                            Some(ch) => {
                                                proof {
                                                    lemma_char_of(ch, combined);
                                                }
                                                push_char(&mut self.cur, ch);
                                                self.wrap_sub(StrSub::Body, is_key);
                                            },
                                            None => {
                                                proof {
                                                    assert(false);
                                                }
                                                self.mode = ParseMode::Failed;
                                            },
                                        }
                                    } else {
                                        self.mode = ParseMode::Failed;
                                    }
                                },
                            }
                        }
                    },
                }
            },
            StrSub::SurEsc(hi) => {
                if c == '\\' {
                    self.wrap_sub(StrSub::SurU(hi), is_key);
                } else {
                    self.mode = ParseMode::Failed;
                }
            },
            StrSub::SurU(hi) => {
                if c == 'u' {
                    self.wrap_sub(StrSub::Uni(4, 0, Some(hi)), is_key);
                } else {
                    self.mode = ParseMode::Failed;
                }
            },
        }
    }

    fn step(&mut self, c: char)
        requires
            wf_state(old(self)@),
        ensures
            final(self)@ == spec_step(old(self)@, c),
            wf_state(final(self)@),
    {
        match self.mode {
            ParseMode::LeadWs => {
                if is_ws(c) {
                } else if c == '{' {
                    self.mode = ParseMode::ObjStart;
                } else {
                    self.mode = ParseMode::Failed;
                }
            },
            ParseMode::ObjStart => {
                if is_ws(c) {
                } else if c == '"' {
                    self.mode = ParseMode::KeyStr(StrSub::Body);
                } else if c == '}' {
                    self.mode = ParseMode::TailWs;
                } else {
                    self.mode = ParseMode::Failed;
                }
            },
            ParseMode::KeyStr(sub) => {
                self.str_step(c, sub, true);
            },
            ParseMode::AfterKey => {
                if is_ws(c) {
                } else if c == ':' {
                    self.mode = ParseMode::AwaitValue;
                } else {
                    self.mode = ParseMode::Failed;
                }
            },
            ParseMode::AwaitValue => {
                if is_ws(c) {
                } else if c == '"' {
                    self.mode = ParseMode::ValStr(StrSub::Body);
                } else if c == '-' {
                    push_char(&mut self.cur, c);
                    self.mode = ParseMode::NumMinus;
                } else if c == '0' {
                    push_char(&mut self.cur, c);
                    self.mode = ParseMode::NumZero;
                } else if is_digit(c) {
                    push_char(&mut self.cur, c);
                    self.mode = ParseMode::NumInt;
                } else {
                    self.mode = ParseMode::Failed;
                }
            },
            ParseMode::ValStr(sub) => {
                self.str_step(c, sub, false);
            },
            ParseMode::NumMinus => {
                if c == '0' {
                    push_char(&mut self.cur, c);
                    self.mode = ParseMode::NumZero;
                } else if is_digit(c) {
                    push_char(&mut self.cur, c);
                    self.mode = ParseMode::NumInt;
                } else {
                    self.mode = ParseMode::Failed;
                }
            },
            ParseMode::NumZero => {
                if c == '.' {
                    push_char(&mut self.cur, c);
                    self.mode = ParseMode::NumFracFirst;
                } else if c == 'e' || c == 'E' {
                    push_char(&mut self.cur, c);
                    self.mode = ParseMode::NumExpStart;
                } else {
                    self.num_end(c);
                }
            },
            ParseMode::NumInt => {
                if is_digit(c) {
                    push_char(&mut self.cur, c);
                    self.mode = ParseMode::NumInt;
                } else if c == '.' {
                    push_char(&mut self.cur, c);
                    self.mode = ParseMode::NumFracFirst;
                } else if c == 'e' || c == 'E' {
                    push_char(&mut self.cur, c);
                    self.mode = ParseMode::NumExpStart;
                } else {
                    self.num_end(c);
                }
            },
            ParseMode::NumFracFirst => {
                if is_digit(c) {
                    push_char(&mut self.cur, c);
                    self.mode = ParseMode::NumFrac;
                } else {
                    self.mode = ParseMode::Failed;
                }
            },
            ParseMode::NumFrac => {
                if is_digit(c) {
                    push_char(&mut self.cur, c);
                    self.mode = ParseMode::NumFrac;
                } else if c == 'e' || c == 'E' {
                    push_char(&mut self.cur, c);
                    self.mode = ParseMode::NumExpStart;
                } else {
                    self.num_end(c);
                }
            },
            ParseMode::NumExpStart => {
                if c == '+' || c == '-' {
                    push_char(&mut self.cur, c);
                    self.mode = ParseMode::NumExpSign;
                } else if is_digit(c) {
                    push_char(&mut self.cur, c);
                    self.mode = ParseMode::NumExp;
                } else {
                    self.mode = ParseMode::Failed;
                }
            },
            ParseMode::NumExpSign => {
                if is_digit(c) {
                    push_char(&mut self.cur, c);
                    self.mode = ParseMode::NumExp;
                } else {
                    self.mode = ParseMode::Failed;
                }
            },
            ParseMode::NumExp => {
                if is_digit(c) {
                    push_char(&mut self.cur, c);
                    self.mode = ParseMode::NumExp;
                } else {
                    self.num_end(c);
                }
            },
            ParseMode::AfterVal => {
                if is_ws(c) {
                } else if c == ',' {
                    self.mode = ParseMode::AwaitKey;
                } else if c == '}' {
                    self.mode = ParseMode::TailWs;
                } else {
                    self.mode = ParseMode::Failed;
                }
            },
            ParseMode::AwaitKey => {
                if is_ws(c) {
                } else if c == '"' {
                    self.mode = ParseMode::KeyStr(StrSub::Body);
                } else {
                    self.mode = ParseMode::Failed;
                }
            },
            ParseMode::TailWs => {
                if is_ws(c) {
                } else {
                    self.mode = ParseMode::Failed;
                }
            },
            ParseMode::Failed => {},
        }
    }

    /// Finishes a number at its terminator, or fails on anything else.
    fn num_end(&mut self, c: char)
        requires
            old(self)@.mode is NumZero || old(self)@.mode is NumInt || old(self)@.mode is NumFrac
                || old(self)@.mode is NumExp,
            old(self)@.mode is NumZero ==> c != '.' && c != 'e' && c != 'E',
            old(self)@.mode is NumInt ==> !is_digit_char(c) && c != '.' && c != 'e' && c != 'E',
            old(self)@.mode is NumFrac ==> !is_digit_char(c) && c != 'e' && c != 'E',
            old(self)@.mode is NumExp ==> !is_digit_char(c),
        ensures
            final(self)@ == spec_step(old(self)@, c),
            wf_state(final(self)@),
    {
        if is_ws(c) {
            self.commit_number(ParseMode::AfterVal);
        } else if c == ',' {
            self.commit_number(ParseMode::AwaitKey);
        } else if c == '}' {
            self.commit_number(ParseMode::TailWs);
        } else {
            self.mode = ParseMode::Failed;
        }
    }

    fn commit_number(&mut self, m: ParseMode)
        ensures
            final(self)@ == sp_commit_num(old(self)@, m),
    {
        let k = self.key.clone();
        let v = self.cur.clone();
        self.items.insert(k, QueryItem::Number(v));
        self.cur = String::new();
        self.mode = m;
    }
}

fn find_char(s: &str, c: char) -> (j: usize)
    ensures
        j as int == spec_find_char(s@, c, 0),
        j <= s@.len(),
{
    let n = s.unicode_len();
    let mut i: usize = 0;
    while i < n
        invariant
            i <= n,
            n == s@.len(),
            spec_find_char(s@, c, 0) == spec_find_char(s@, c, i as int),
        decreases n - i,
    {
        if s.get_char(i) == c {
            return i;
        }
        i = i + 1;
    }
    i
}

/// The first index at which `c` occurs in `s` at or after `i`, or the
/// length of `s` if it never does.
pub open spec fn spec_find_char(s: Seq<char>, c: char, i: int) -> int
    decreases s.len() - i,
{
    if i < 0 || i >= s.len() {
        s.len() as int
    } else if s[i] == c {
        i
    } else {
        spec_find_char(s, c, i + 1)
    }
}

/// The portion of a query string that is parsed: its first `&`-separated
/// segment; within that, everything after the first `=`, or the whole
/// segment when it has none.
pub open spec fn spec_query_value(s: Seq<char>) -> Seq<char> {
    let seg = s.take(spec_find_char(s, '&', 0));
    let eq = spec_find_char(seg, '=', 0);
    if eq == seg.len() {
        seg
    } else {
        seg.skip(eq + 1)
    }
}

/// Parses the value of the first key/value pair of a raw query string into
/// a typed payload. Malformed content yields the empty payload; this never
/// fails.
pub fn extract_query(raw: &str) -> (r: QueryData)
    ensures
        r@ == spec_extract_from_str(spec_query_value(raw@)),
{
    let amp = find_char(raw, '&');
    let seg = raw.substring_char(0, amp);
    proof {
        assert(seg@ =~= raw@.take(spec_find_char(raw@, '&', 0)));
    }
    let eq = find_char(seg, '=');
    let n = seg.unicode_len();
    if eq == n {
        extract_query_from_str(seg)
    } else {
        let value = seg.substring_char(eq + 1, n);
        proof {
            assert(value@ =~= seg@.skip(spec_find_char(seg@, '=', 0) + 1));
        }
        extract_query_from_str(value)
    }
}

/// Parses a raw value string as a flat object of scalars into a typed
/// payload. Malformed content yields the empty payload; this never fails.
pub fn extract_query_from_str(query: &str) -> (r: QueryData)
    ensures
        r@ == spec_extract_from_str(query@),
{
    let n = query.unicode_len();
    let mut p = Parser {
        mode: ParseMode::LeadWs,
        key: String::new(),
        cur: String::new(),
        items: QueryData::new(),
    };
    proof {
        assert(p@ =~= spec_init_state());
    }
    let mut i: usize = 0;
    while i < n
        invariant
            i <= n,
            n == query@.len(),
            p@ == spec_run(query@, i as int),
            wf_state(p@),
        decreases n - i,
    {
        let c = query.get_char(i);
        p.step(c);
        i = i + 1;
    }
    match p.mode {
        ParseMode::TailWs => p.items,
        _ => QueryData::new(),
    }
}

} // verus!

