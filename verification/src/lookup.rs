//! The requests that go upstream and the reading of what comes back: the
//! address of the listing, the query for one Pal, and the rules that turn a
//! response into a record or an error.

use crate::error::PalError;
use crate::model::{APIResponse, Pal};
use crate::text::{decimal, decimal_string};
use vstd::prelude::*;
use vstd::string::StringSliceAdditionalSpecFns;

verus! {

/// How many records the listing is asked for. Only this first page is read.
pub const PAGE_SIZE: i64 = 200;

/// Whether a byte stands for itself in a query: the letters and digits of
/// ASCII, and `-`, `.`, `_`, `~`.
pub open spec fn is_unreserved(b: u8) -> bool {
    ||| 0x30 <= b <= 0x39
    ||| 0x41 <= b <= 0x5a
    ||| 0x61 <= b <= 0x7a
    ||| b == 0x2d
    ||| b == 0x2e
    ||| b == 0x5f
    ||| b == 0x7e
}

/// The digit `d` of base sixteen, for `d` from 0 to 15, with capital letters.
pub open spec fn hex_digit(d: int) -> char {
    if d < 10 {
        (0x30 + d) as u8 as char
    } else {
        (0x41 + d - 10) as u8 as char
    }
}

/// One byte as it stands in a query: itself where it is unreserved, else a
/// percent sign and its two hexadecimal digits.
pub open spec fn percent_byte(b: u8) -> Seq<char> {
    if is_unreserved(b) {
        seq![b as char]
    } else {
        seq!['%', hex_digit(b as int / 16), hex_digit(b as int % 16)]
    }
}

/// The bytes percent-encoded, one after the other.
pub open spec fn percent_encoded(bytes: Seq<u8>) -> Seq<char>
    decreases bytes.len(),
{
    if bytes.len() == 0 {
        Seq::empty()
    } else {
        percent_encoded(bytes.drop_last()) + percent_byte(bytes.last())
    }
}

/// Whether a character can stand in the value of a query parameter without
/// ending it or being taken for another part of the address: a percent sign,
/// or the character of an unreserved byte.
pub open spec fn is_query_safe(c: char) -> bool {
    c == '%' || (c as u32 <= 0x7e && is_unreserved(c as u8))
}

/// Percent-encoded text holds nothing but unreserved characters and percent
/// signs.
pub proof fn lemma_encoded_is_query_safe(bytes: Seq<u8>)
    ensures
        forall|i: int|
            0 <= i < percent_encoded(bytes).len() ==> is_query_safe(
                #[trigger] percent_encoded(bytes)[i],
            ),
    decreases bytes.len(),
{
    if bytes.len() > 0 {
        lemma_encoded_is_query_safe(bytes.drop_last());
        let head = percent_encoded(bytes.drop_last());
        let tail = percent_byte(bytes.last());
        assert forall|i: int| 0 <= i < percent_encoded(bytes).len() implies is_query_safe(
            #[trigger] percent_encoded(bytes)[i],
        ) by {
            if i < head.len() {
                assert(percent_encoded(bytes)[i] == head[i]);
            } else {
                assert(percent_encoded(bytes)[i] == tail[i - head.len()]);
            }
        }
    }
}

/// The query for a Pal has one parameter and stays a query, whatever the
/// name: its value holds no space and none of `&`, `=`, `#`, `?`, `/`.
pub proof fn lemma_query_value_is_whole(name: Seq<u8>)
    ensures
        !percent_encoded(name).contains(' '),
        !percent_encoded(name).contains('&'),
        !percent_encoded(name).contains('='),
        !percent_encoded(name).contains('#'),
        !percent_encoded(name).contains('?'),
        !percent_encoded(name).contains('/'),
{
    lemma_encoded_is_query_safe(name);
}

/// Percent-encodes the UTF-8 bytes of `text`.
///
/// Trusted: `urlencoding::encode` goes through the bytes of the text in
/// order; a byte that is an ASCII letter or digit or one of `-`, `.`, `_`,
/// `~` is copied, and every other byte becomes `%` and its two hexadecimal
/// digits in capitals.
#[verifier::external_body]
fn percent_encode(text: &str) -> (r: String)
    ensures
        r@ == percent_encoded(text.spec_bytes()),
{
    urlencoding::encode(text).into_owned()
}

/// The query of the request for one Pal.
pub open spec fn detail_query_text(name: Seq<u8>) -> Seq<char> {
    "name="@ + percent_encoded(name)
}

/// The address of the request for the listing.
pub open spec fn listing_url_text(base: Seq<char>) -> Seq<char> {
    base + "?limit="@ + decimal(PAGE_SIZE as int)
}

/// The query that asks the upstream service for the Pal called `name`: the
/// parameter `name` with the percent-encoded name as its value.
pub fn detail_query(name: &str) -> (r: String)
    ensures
        r@ == detail_query_text(name.spec_bytes()),
{
    let mut r = String::from_str("name=");
    let value = percent_encode(name);
    r.append(value.as_str());
    r
}

/// The address that lists the Pals: the base address with the page size as
/// its query.
pub fn listing_url(base: &str) -> (r: String)
    ensures
        r@ == listing_url_text(base@),
{
    let mut r = String::from_str(base);
    r.append("?limit=");
    let size = decimal_string(PAGE_SIZE);
    r.append(size.as_str());
    r
}

/// What the status of a detail response means: `Ok` for 200, when the body
/// is to be read; the expired credential for 401; and for any other status an
/// error that quotes `shown`, the status as the transport prints it.
pub open spec fn status_outcome(code: u16, shown: Seq<char>, r: Result<(), PalError>) -> bool {
    if code == 200 {
        r is Ok
    } else if code == 401 {
        r == Err::<(), PalError>(PalError::TokenExpired)
    } else {
        r matches Err(PalError::Unexpected(cause)) && cause@ == "Unexpected status code: "@ + shown
    }
}

/// Judges the status of a detail response before its body is looked at.
pub fn check_status(code: u16, shown: &str) -> (r: Result<(), PalError>)
    ensures
        status_outcome(code, shown@, r),
{
    if code == 200 {
        Ok(())
    } else if code == 401 {
        Err(PalError::TokenExpired)
    } else {
        let mut cause = String::from_str("Unexpected status code: ");
        cause.append(shown);
        Err(PalError::Unexpected(cause))
    }
}

/// The Pal that a parsed detail response stands for: its first record. A
/// response without records is an error, never an empty record.
pub fn first_pal(parsed: APIResponse) -> (r: Result<Pal, PalError>)
    ensures
        parsed.content.len() == 0 ==> r == Err::<Pal, PalError>(PalError::MissingContent),
        parsed.content.len() > 0 ==> r == Ok::<Pal, PalError>(parsed.content[0]),
{
    let mut content = parsed.content;
    if content.len() == 0 {
        Err(PalError::MissingContent)
    } else {
        Ok(content.remove(0))
    }
}

/// The names of the Pals of a listing, in the order of the listing.
pub fn pal_names(listing: &APIResponse) -> (names: Vec<String>)
    ensures
        names.deep_view() == listing.names(),
{
    let mut names: Vec<String> = Vec::new();
    let mut i: usize = 0;
    while i < listing.content.len()
        invariant
            i <= listing.content.len(),
            names.deep_view() == listing.names().take(i as int),
        decreases listing.content.len() - i,
    {
        let ghost before = names.deep_view();
        names.push(listing.content[i].name.clone());
        proof {
            let name = listing.content[i as int].name@;
            assert(names.deep_view() == before.push(name));
            assert(listing.names().take(i + 1) == listing.names().take(i as int).push(name));
        }
        i = i + 1;
    }
    assert(listing.names().take(listing.content.len() as int) == listing.names());
    names
}

} // verus!
