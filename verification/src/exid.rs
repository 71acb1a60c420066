//! External note identifiers.
//!
//! Callers and the UI name a note by an external identifier: a UUID,
//! canonically the `8-4-4-4-12` hyphenated lowercase hex form.  The
//! file responder parses one out of a request path; the record store
//! resolves it to an internal integer identifier.  The identifier is
//! modeled here by its canonical text.  Parsing accepts the four
//! textual shapes the UUID ecosystem writes — simple (32 hex digits),
//! hyphenated, braced, and URN, with hex digits of either case — and
//! canonicalizes each to the hyphenated lowercase form, so parsing
//! followed by re-serialization is proved to round-trip.

use vstd::prelude::*;

verus! {

/// Whether a character is a lowercase hex digit.
pub open spec fn is_lower_hex(c: char) -> bool {
    (48 <= c as int <= 57) || (97 <= c as int <= 102)
}

/// Whether a character is a hex digit of either case.
pub open spec fn is_hex(c: char) -> bool {
    is_lower_hex(c) || (65 <= c as int <= 70)
}

/// Lowercase a hex digit; other characters pass through.
pub open spec fn to_lower_hex(c: char) -> char {
    if c == 'A' {
        'a'
    } else if c == 'B' {
        'b'
    } else if c == 'C' {
        'c'
    } else if c == 'D' {
        'd'
    } else if c == 'E' {
        'e'
    } else if c == 'F' {
        'f'
    } else {
        c
    }
}

/// Whether position `i` of the 36-character form holds a hyphen.
pub open spec fn is_hyphen_pos(i: int) -> bool {
    i == 8 || i == 13 || i == 18 || i == 23
}

/// The hyphenated shape: 36 characters, hyphens at the group
/// boundaries, hex digits of either case elsewhere.
pub open spec fn is_hyphenated_uuid_text(s: Seq<char>) -> bool {
    &&& s.len() == 36
    &&& forall|i: int|
        0 <= i < 36 ==> (if is_hyphen_pos(i) {
            #[trigger] s[i] == '-'
        } else {
            is_hex(s[i])
        })
}

/// The simple shape: 32 hex digits of either case, no hyphens.
pub open spec fn is_simple_uuid_text(s: Seq<char>) -> bool {
    &&& s.len() == 32
    &&& forall|i: int| 0 <= i < 32 ==> is_hex(#[trigger] s[i])
}

/// The braced shape: a hyphenated text wrapped in `{` and `}`.
pub open spec fn is_braced_uuid_text(s: Seq<char>) -> bool {
    &&& s.len() == 38
    &&& s[0] == '{'
    &&& s[37] == '}'
    &&& is_hyphenated_uuid_text(s.subrange(1, 37))
}

/// A `urn:uuid:` prefix, letters of either case.
pub open spec fn is_urn_prefix(s: Seq<char>) -> bool {
    &&& s.len() >= 9
    &&& (s[0] == 'u' || s[0] == 'U')
    &&& (s[1] == 'r' || s[1] == 'R')
    &&& (s[2] == 'n' || s[2] == 'N')
    &&& s[3] == ':'
    &&& (s[4] == 'u' || s[4] == 'U')
    &&& (s[5] == 'u' || s[5] == 'U')
    &&& (s[6] == 'i' || s[6] == 'I')
    &&& (s[7] == 'd' || s[7] == 'D')
    &&& s[8] == ':'
}

/// The URN shape: the prefix followed by a hyphenated text.
pub open spec fn is_urn_uuid_text(s: Seq<char>) -> bool {
    &&& s.len() == 45
    &&& is_urn_prefix(s)
    &&& is_hyphenated_uuid_text(s.subrange(9, 45))
}

/// A well-formed external-identifier text: any of the four shapes.
/// Their lengths differ, so at most one shape fits a given text.
pub open spec fn is_uuid_text(s: Seq<char>) -> bool {
    ||| is_simple_uuid_text(s)
    ||| is_hyphenated_uuid_text(s)
    ||| is_braced_uuid_text(s)
    ||| is_urn_uuid_text(s)
}

/// The canonical form: hyphenated, with every digit lowercase.
pub open spec fn is_canonical_uuid(s: Seq<char>) -> bool {
    &&& s.len() == 36
    &&& forall|i: int|
        0 <= i < 36 ==> (if is_hyphen_pos(i) {
            #[trigger] s[i] == '-'
        } else {
            is_lower_hex(s[i])
        })
}

/// Lowercase every character of a text.
pub open spec fn lower_all(s: Seq<char>) -> Seq<char> {
    Seq::new(s.len(), |i: int| to_lower_hex(s[i]))
}

/// Which simple-form digit stands at position `i` of the hyphenated
/// form.
pub open spec fn simple_source_index(i: int) -> int {
    if i < 8 {
        i
    } else if i < 13 {
        i - 1
    } else if i < 18 {
        i - 2
    } else if i < 23 {
        i - 3
    } else {
        i - 4
    }
}

/// The canonical text of a simple-form text: the digits lowercased,
/// with hyphens inserted at the group boundaries.
pub open spec fn canon_of_simple(s: Seq<char>) -> Seq<char> {
    Seq::new(
        36,
        |i: int|
            if is_hyphen_pos(i) {
                '-'
            } else {
                to_lower_hex(s[simple_source_index(i)])
            },
    )
}

/// The canonical text a well-formed text denotes.  The shapes have
/// distinct lengths, so the case split is by length.
pub open spec fn canon_uuid(s: Seq<char>) -> Seq<char> {
    if s.len() == 32 {
        canon_of_simple(s)
    } else if s.len() == 38 {
        lower_all(s.subrange(1, 37))
    } else if s.len() == 45 {
        lower_all(s.subrange(9, 45))
    } else {
        lower_all(s)
    }
}

/// An external note identifier, held in canonical text form.
pub struct ExternalId {
    text: String,
}

impl View for ExternalId {
    type V = Seq<char>;

    closed spec fn view(&self) -> Seq<char> {
        self.text@
    }
}

impl ExternalId {
    /// The identifier's text is canonical; constructors establish this
    /// and every identifier in circulation satisfies it.
    pub open spec fn wf(&self) -> bool {
        is_canonical_uuid(self@)
    }

    /// The canonical text of the identifier.
    pub fn to_text(&self) -> (r: String)
        ensures
            r@ == self@,
    {
        self.text.clone()
    }

    /// A second identifier naming the same note.
    pub fn duplicate(&self) -> (r: ExternalId)
        requires
            self.wf(),
        ensures
            r.wf(),
            r@ == self@,
    {
        ExternalId { text: self.text.clone() }
    }
}

/// The single-character string for one accepted character, lowercased.
fn lower_hex_str(c: char) -> (r: &'static str)
    requires
        is_hex(c) || c == '-',
    ensures
        r@ =~= seq![to_lower_hex(c)],
{
    proof {
        reveal_strlit("0");
        reveal_strlit("1");
        reveal_strlit("2");
        reveal_strlit("3");
        reveal_strlit("4");
        reveal_strlit("5");
        reveal_strlit("6");
        reveal_strlit("7");
        reveal_strlit("8");
        reveal_strlit("9");
        reveal_strlit("a");
        reveal_strlit("b");
        reveal_strlit("c");
        reveal_strlit("d");
        reveal_strlit("e");
        reveal_strlit("f");
        reveal_strlit("-");
    }
    match c {
        '0' => "0",
        '1' => "1",
        '2' => "2",
        '3' => "3",
        '4' => "4",
        '5' => "5",
        '6' => "6",
        '7' => "7",
        '8' => "8",
        '9' => "9",
        'a' | 'A' => "a",
        'b' | 'B' => "b",
        'c' | 'C' => "c",
        'd' | 'D' => "d",
        'e' | 'E' => "e",
        'f' | 'F' => "f",
        _ => "-",
    }
}

/// Whether an exec character is an accepted hex digit.
fn is_hex_exec(c: char) -> (r: bool)
    ensures
        r == is_hex(c),
{
    ('0' <= c && c <= '9') || ('a' <= c && c <= 'f') || ('A' <= c && c <= 'F')
}

/// Canonicalize a 36-character hyphenated text, rejecting any other.
fn canon_hyphenated36(s: &str) -> (r: Option<String>)
    requires
        s@.len() == 36,
    ensures
        r is Some <==> is_hyphenated_uuid_text(s@),
        r matches Some(out) ==> out@ == lower_all(s@),
{
    let mut out = String::new();
    let mut i: usize = 0;
    while i < 36
        invariant
            s@.len() == 36,
            0 <= i <= 36,
            out@.len() == i,
            forall|j: int|
                0 <= j < i ==> (if is_hyphen_pos(j) {
                    #[trigger] s@[j] == '-'
                } else {
                    is_hex(s@[j])
                }),
            forall|j: int| 0 <= j < i ==> #[trigger] out@[j] == to_lower_hex(s@[j]),
        decreases 36 - i,
    {
        let c = s.get_char(i);
        if i == 8 || i == 13 || i == 18 || i == 23 {
            if c != '-' {
                return Option::None;
            }
        } else {
            if !is_hex_exec(c) {
                return Option::None;
            }
        }
        out.append(lower_hex_str(c));
        i = i + 1;
    }
    proof {
        assert(is_hyphenated_uuid_text(s@));
        assert(out@ =~= lower_all(s@));
    }
    Option::Some(out)
}

/// Canonicalize a 32-character simple text, inserting the hyphens.
fn canon_simple32(s: &str) -> (r: Option<String>)
    requires
        s@.len() == 32,
    ensures
        r is Some <==> is_simple_uuid_text(s@),
        r matches Some(out) ==> out@ == canon_of_simple(s@),
{
    let mut out = String::new();
    let mut j: usize = 0;
    while j < 36
        invariant
            s@.len() == 32,
            0 <= j <= 36,
            out@.len() == j,
            forall|k: int|
                0 <= k < j && !is_hyphen_pos(k) ==> is_hex(#[trigger] s@[simple_source_index(k)]),
            forall|k: int| 0 <= k < j ==> #[trigger] out@[k] == canon_of_simple(s@)[k],
        decreases 36 - j,
    {
        if j == 8 || j == 13 || j == 18 || j == 23 {
            out.append("-");
            proof {
                reveal_strlit("-");
                assert("-"@ =~= seq!['-']);
            }
        } else {
            let src: usize = if j < 8 {
                j
            } else if j < 13 {
                j - 1
            } else if j < 18 {
                j - 2
            } else if j < 23 {
                j - 3
            } else {
                j - 4
            };
            let c = s.get_char(src);
            if !is_hex_exec(c) {
                proof {
                    assert(!is_hex(s@[src as int]));
                    assert(!is_simple_uuid_text(s@));
                }
                return Option::None;
            }
            out.append(lower_hex_str(c));
        }
        j = j + 1;
    }
    proof {
        assert forall|i: int| 0 <= i < 32 implies is_hex(#[trigger] s@[i]) by {
            let k: int = if i < 8 {
                i
            } else if i < 12 {
                i + 1
            } else if i < 16 {
                i + 2
            } else if i < 20 {
                i + 3
            } else {
                i + 4
            };
            assert(!is_hyphen_pos(k));
            assert(simple_source_index(k) == i);
            assert(is_hex(s@[simple_source_index(k)]));
        }
        assert(is_simple_uuid_text(s@));
        assert(out@ =~= canon_of_simple(s@));
    }
    Option::Some(out)
}

/// Whether the text begins with a `urn:uuid:` prefix of either case.
fn has_urn_prefix(s: &str) -> (r: bool)
    requires
        s@.len() >= 9,
    ensures
        r == is_urn_prefix(s@),
{
    let c0 = s.get_char(0);
    let c1 = s.get_char(1);
    let c2 = s.get_char(2);
    let c3 = s.get_char(3);
    let c4 = s.get_char(4);
    let c5 = s.get_char(5);
    let c6 = s.get_char(6);
    let c7 = s.get_char(7);
    let c8 = s.get_char(8);
    (c0 == 'u' || c0 == 'U') && (c1 == 'r' || c1 == 'R') && (c2 == 'n' || c2 == 'N') && c3 == ':'
        && (c4 == 'u' || c4 == 'U') && (c5 == 'u' || c5 == 'U') && (c6 == 'i' || c6 == 'I') && (c7
        == 'd' || c7 == 'D') && c8 == ':'
}

/// Parse an external identifier out of any of its text forms.
///
/// Accepts the simple, hyphenated, braced and URN shapes with hex
/// digits of either case, canonicalizing to the hyphenated lowercase
/// form; anything else is rejected.
pub fn parse_external_id(s: &str) -> (r: Option<ExternalId>)
    ensures
        r is Some <==> is_uuid_text(s@),
        r matches Some(id) ==> id.wf() && id@ == canon_uuid(s@),
{
    let len = s.unicode_len();
    if len == 32 {
        match canon_simple32(s) {
            Option::Some(out) => {
                proof {
                    lemma_canon_simple_canonical(s@);
                }
                Option::Some(ExternalId { text: out })
            },
            Option::None => Option::None,
        }
    } else if len == 36 {
        match canon_hyphenated36(s) {
            Option::Some(out) => {
                proof {
                    lemma_lower_all_canonical(s@);
                }
                Option::Some(ExternalId { text: out })
            },
            Option::None => Option::None,
        }
    } else if len == 38 {
        if s.get_char(0) != '{' || s.get_char(37) != '}' {
            return Option::None;
        }
        let inner = s.substring_char(1, 37);
        match canon_hyphenated36(inner) {
            Option::Some(out) => {
                proof {
                    lemma_lower_all_canonical(s@.subrange(1, 37));
                }
                Option::Some(ExternalId { text: out })
            },
            Option::None => Option::None,
        }
    } else if len == 45 {
        if !has_urn_prefix(s) {
            return Option::None;
        }
        let tail = s.substring_char(9, 45);
        match canon_hyphenated36(tail) {
            Option::Some(out) => {
                proof {
                    lemma_lower_all_canonical(s@.subrange(9, 45));
                }
                Option::Some(ExternalId { text: out })
            },
            Option::None => Option::None,
        }
    } else {
        Option::None
    }
}

/// Serialize an identifier back to its canonical text.
pub fn format_external_id(id: &ExternalId) -> (r: String)
    ensures
        r@ == id@,
{
    id.to_text()
}

/// Lowercasing a valid hyphenated text yields a canonical one.
proof fn lemma_lower_all_canonical(s: Seq<char>)
    requires
        is_hyphenated_uuid_text(s),
    ensures
        is_canonical_uuid(lower_all(s)),
{
    let c = lower_all(s);
    assert forall|i: int| 0 <= i < 36 implies (if is_hyphen_pos(i) {
        #[trigger] c[i] == '-'
    } else {
        is_lower_hex(c[i])
    }) by {
        assert(c[i] == to_lower_hex(s[i]));
    }
}

/// Hyphenating and lowercasing a valid simple text yields a canonical
/// one.
proof fn lemma_canon_simple_canonical(s: Seq<char>)
    requires
        is_simple_uuid_text(s),
    ensures
        is_canonical_uuid(canon_of_simple(s)),
{
    let c = canon_of_simple(s);
    assert forall|i: int| 0 <= i < 36 implies (if is_hyphen_pos(i) {
        #[trigger] c[i] == '-'
    } else {
        is_lower_hex(c[i])
    }) by {
        if !is_hyphen_pos(i) {
            assert(0 <= simple_source_index(i) < 32);
            assert(is_hex(s[simple_source_index(i)]));
        }
    }
}

/// A canonical text is itself a valid input whose canonicalization is
/// the identity: re-parsing a serialized identifier yields it back.
pub proof fn lemma_uuid_roundtrip(s: Seq<char>)
    requires
        is_canonical_uuid(s),
    ensures
        is_uuid_text(s),
        canon_uuid(s) == s,
{
    assert(is_hyphenated_uuid_text(s));
    assert forall|i: int| 0 <= i < 36 implies #[trigger] to_lower_hex(s[i]) == s[i] by {
        if is_hyphen_pos(i) {
        } else {
            assert(is_lower_hex(s[i]));
        }
    }
    assert(canon_uuid(s) =~= s);
}

/// Canonicalizing any valid text yields a canonical text: parsing
/// always lands in the canonical form, so serialization of any parsed
/// identifier is canonical.
pub proof fn lemma_canon_uuid_canonical(s: Seq<char>)
    requires
        is_uuid_text(s),
    ensures
        is_canonical_uuid(canon_uuid(s)),
{
    if is_simple_uuid_text(s) {
        lemma_canon_simple_canonical(s);
    } else if is_hyphenated_uuid_text(s) {
        lemma_lower_all_canonical(s);
    } else if is_braced_uuid_text(s) {
        lemma_lower_all_canonical(s.subrange(1, 37));
    } else {
        lemma_lower_all_canonical(s.subrange(9, 45));
    }
}

} // verus!
