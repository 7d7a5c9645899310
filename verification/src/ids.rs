//! Connection identifiers: random version 4 UUIDs, held as 128-bit numbers.
use uuid::Uuid;
use vstd::prelude::*;

verus! {

/// The `k`-th hexadecimal digit of `id`, counted from the most significant.
pub open spec fn nibble(id: u128, k: int) -> u128
    recommends
        0 <= k < 32,
{
    (id >> ((124 - 4 * k) as u128)) & 0xf
}

/// The lower-case hexadecimal digit for `n`.
pub open spec fn hex_digit(n: u128) -> char
    recommends
        n < 16,
{
    if n < 10 {
        (48 + n) as char
    } else {
        (87 + n) as char
    }
}

/// Whether a hyphen stands at position `i` of a UUID's text.
pub open spec fn is_hyphen(i: int) -> bool {
    i == 8 || i == 13 || i == 18 || i == 23
}

/// Which hexadecimal digit stands at position `i` of a UUID's text.
pub open spec fn digit_at(i: int) -> int {
    if i < 8 {
        i
    } else if i < 13 {
        i - 1
    } else if i < 18 {
        i - 2
    } else if i < 23 {
        i - 3
    } else {
        i - 4
    }
}

/// The text of `id`: thirty-two lower-case hexadecimal digits in groups of 8, 4,
/// 4, 4 and 12 with hyphens between them.
pub open spec fn id_text(id: u128) -> Seq<char> {
    Seq::new(
        36,
        |i: int|
            if is_hyphen(i) {
                '-'
            } else {
                hex_digit(nibble(id, digit_at(i)))
            },
    )
}

/// Whether `id` has the version and variant bits of a random UUID.
pub open spec fn is_random_id(id: u128) -> bool {
    &&& nibble(id, 12) == 4
    &&& nibble(id, 16) & 0xc == 8
}

/// `Uuid::new_v4`. The number is drawn by the operating system; all that holds of
/// every outcome is that the version and variant bits are set. That two calls
/// draw different numbers is likely and not claimed. The call panics where the
/// operating system has no random numbers to give.
#[verifier::external_body]
pub(crate) fn new_id() -> (id: u128)
    ensures
        is_random_id(id),
{
    Uuid::new_v4().as_u128()
}

/// `Uuid`'s `Display`: the hyphenated form in lower case.
#[verifier::external_body]
pub(crate) fn id_to_string(id: u128) -> (text: String)
    ensures
        text@ == id_text(id),
{
    Uuid::from_u128(id).to_string()
}

/// The identifier that `Uuid::parse_str` makes of `text`, or what it says is wrong
/// with it.
pub uninterp spec fn parsed_id(text: Seq<char>) -> Result<u128, Seq<char>>;

/// `Uuid::parse_str`, and the `Display` of its error. The text that a UUID is
/// displayed with is parsed to that UUID. Which other texts are UUIDs, and what is
/// said of those that are not, is a function of the text that [`parsed_id`] names.
#[verifier::external_body]
fn uuid_parse(text: &str) -> (id: Result<u128, String>)
    ensures
        forall|shown: u128| text@ == #[trigger] id_text(shown) ==> id is Ok && id->Ok_0 == shown,
        parsed_id(text@) matches Ok(parsed) ==> id is Ok && id->Ok_0 == parsed,
        parsed_id(text@) matches Err(message) ==> id is Err && id->Err_0@ == message,
{
    Uuid::parse_str(text).map(|id| id.as_u128()).map_err(|error| error.to_string())
}

/// The identifier that `text` stands for, or what is wrong with it: what
/// [`parsed_id`] says, with the texts of identifiers told apart.
pub open spec fn id_of(text: Seq<char>) -> Result<u128, Seq<char>> {
    if exists|id: u128| text == #[trigger] id_text(id) {
        Ok(choose|id: u128| text == #[trigger] id_text(id))
    } else {
        parsed_id(text)
    }
}

/// The identifier that `text` stands for, or what is wrong with it.
pub fn parse_id(text: &str) -> (id: Result<u128, String>)
    ensures
        match id_of(text@) {
            Ok(parsed) => id is Ok && id->Ok_0 == parsed,
            Err(message) => id is Err && id->Err_0@ == message,
        },
{
    uuid_parse(text)
}

proof fn lemma_hex_digit_injective(m: u128, n: u128)
    requires
        m < 16,
        n < 16,
        hex_digit(m) == hex_digit(n),
    ensures
        m == n,
{
    assert(hex_digit(m) as int == if m < 10 { 48 + m } else { 87 + m });
    assert(hex_digit(n) as int == if n < 10 { 48 + n } else { 87 + n });
}

proof fn lemma_nibble_bound(id: u128, k: int)
    requires
        0 <= k < 32,
    ensures
        nibble(id, k) < 16,
{
    let s: u128 = (124 - 4 * k) as u128;
    assert((id >> s) & 0xf < 16) by (bit_vector);
}

proof fn lemma_nibbles_determine(a: u128, b: u128)
    requires
        forall|k: int| 0 <= k < 32 ==> #[trigger] nibble(a, k) == nibble(b, k),
    ensures
        a == b,
{
    assert(nibble(a, 0) == nibble(b, 0));
    assert(nibble(a, 1) == nibble(b, 1));
    assert(nibble(a, 2) == nibble(b, 2));
    assert(nibble(a, 3) == nibble(b, 3));
    assert(nibble(a, 4) == nibble(b, 4));
    assert(nibble(a, 5) == nibble(b, 5));
    assert(nibble(a, 6) == nibble(b, 6));
    assert(nibble(a, 7) == nibble(b, 7));
    assert(nibble(a, 8) == nibble(b, 8));
    assert(nibble(a, 9) == nibble(b, 9));
    assert(nibble(a, 10) == nibble(b, 10));
    assert(nibble(a, 11) == nibble(b, 11));
    assert(nibble(a, 12) == nibble(b, 12));
    assert(nibble(a, 13) == nibble(b, 13));
    assert(nibble(a, 14) == nibble(b, 14));
    assert(nibble(a, 15) == nibble(b, 15));
    assert(nibble(a, 16) == nibble(b, 16));
    assert(nibble(a, 17) == nibble(b, 17));
    assert(nibble(a, 18) == nibble(b, 18));
    assert(nibble(a, 19) == nibble(b, 19));
    assert(nibble(a, 20) == nibble(b, 20));
    assert(nibble(a, 21) == nibble(b, 21));
    assert(nibble(a, 22) == nibble(b, 22));
    assert(nibble(a, 23) == nibble(b, 23));
    assert(nibble(a, 24) == nibble(b, 24));
    assert(nibble(a, 25) == nibble(b, 25));
    assert(nibble(a, 26) == nibble(b, 26));
    assert(nibble(a, 27) == nibble(b, 27));
    assert(nibble(a, 28) == nibble(b, 28));
    assert(nibble(a, 29) == nibble(b, 29));
    assert(nibble(a, 30) == nibble(b, 30));
    assert(nibble(a, 31) == nibble(b, 31));
    assert(a == b) by (bit_vector)
        requires
            (a >> 124) & 0xf == (b >> 124) & 0xf,
            (a >> 120) & 0xf == (b >> 120) & 0xf,
            (a >> 116) & 0xf == (b >> 116) & 0xf,
            (a >> 112) & 0xf == (b >> 112) & 0xf,
            (a >> 108) & 0xf == (b >> 108) & 0xf,
            (a >> 104) & 0xf == (b >> 104) & 0xf,
            (a >> 100) & 0xf == (b >> 100) & 0xf,
            (a >> 96) & 0xf == (b >> 96) & 0xf,
            (a >> 92) & 0xf == (b >> 92) & 0xf,
            (a >> 88) & 0xf == (b >> 88) & 0xf,
            (a >> 84) & 0xf == (b >> 84) & 0xf,
            (a >> 80) & 0xf == (b >> 80) & 0xf,
            (a >> 76) & 0xf == (b >> 76) & 0xf,
            (a >> 72) & 0xf == (b >> 72) & 0xf,
            (a >> 68) & 0xf == (b >> 68) & 0xf,
            (a >> 64) & 0xf == (b >> 64) & 0xf,
            (a >> 60) & 0xf == (b >> 60) & 0xf,
            (a >> 56) & 0xf == (b >> 56) & 0xf,
            (a >> 52) & 0xf == (b >> 52) & 0xf,
            (a >> 48) & 0xf == (b >> 48) & 0xf,
            (a >> 44) & 0xf == (b >> 44) & 0xf,
            (a >> 40) & 0xf == (b >> 40) & 0xf,
            (a >> 36) & 0xf == (b >> 36) & 0xf,
            (a >> 32) & 0xf == (b >> 32) & 0xf,
            (a >> 28) & 0xf == (b >> 28) & 0xf,
            (a >> 24) & 0xf == (b >> 24) & 0xf,
            (a >> 20) & 0xf == (b >> 20) & 0xf,
            (a >> 16) & 0xf == (b >> 16) & 0xf,
            (a >> 12) & 0xf == (b >> 12) & 0xf,
            (a >> 8) & 0xf == (b >> 8) & 0xf,
            (a >> 4) & 0xf == (b >> 4) & 0xf,
            (a >> 0) & 0xf == (b >> 0) & 0xf,
    ;
}

/// No two identifiers have the same text.
pub proof fn law_id_text_is_injective(a: u128, b: u128)
    requires
        id_text(a) == id_text(b),
    ensures
        a == b,
{
    assert forall|k: int| 0 <= k < 32 implies #[trigger] nibble(a, k) == nibble(b, k) by {
        let i: int = if k < 8 {
            k
        } else if k < 12 {
            k + 1
        } else if k < 16 {
            k + 2
        } else if k < 20 {
            k + 3
        } else {
            k + 4
        };
        assert(digit_at(i) == k && !is_hyphen(i));
        assert(id_text(a)[i] == hex_digit(nibble(a, k)));
        assert(id_text(b)[i] == hex_digit(nibble(b, k)));
        lemma_nibble_bound(a, k);
        lemma_nibble_bound(b, k);
        lemma_hex_digit_injective(nibble(a, k), nibble(b, k));
    }
    lemma_nibbles_determine(a, b);
}

/// The text of an identifier fills one segment of a path: it is not empty and has no
/// slash in it.
pub proof fn law_id_text_is_one_segment(id: u128)
    ensures
        id_text(id).len() == 36,
        !id_text(id).contains('/'),
{
    assert forall|i: int| 0 <= i < 36 implies id_text(id)[i] != '/' by {
        if !is_hyphen(i) {
            let n = nibble(id, digit_at(i));
            lemma_nibble_bound(id, digit_at(i));
            assert(hex_digit(n) as int == if n < 10 { 48 + n } else { 87 + n });
        }
    }
}

/// A text that is no identifier's own stands for what the parser makes of it.
pub proof fn law_other_texts_are_parsed(text: Seq<char>)
    requires
        forall|id: u128| text != #[trigger] id_text(id),
    ensures
        id_of(text) == parsed_id(text),
{
}

/// The text of an identifier stands for that identifier.
pub proof fn law_id_text_is_parsed_back(id: u128)
    ensures
        id_of(id_text(id)) == Ok::<u128, Seq<char>>(id),
{
    let text = id_text(id);
    let chosen = choose|other: u128| text == #[trigger] id_text(other);
    assert(text == id_text(id));
    law_id_text_is_injective(id, chosen);
}

} // verus!
