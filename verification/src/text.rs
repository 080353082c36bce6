//! Text as it travels in payloads: UTF-8 in, UTF-8 out, and the characters
//! that a name may not hold.

use vstd::prelude::*;
use vstd::std_specs::iter::IteratorSpec;
use vstd::string::axiom_spec_iter;
use vstd::string::next_postcondition;
use vstd::utf8::decode_utf8;
use vstd::utf8::encode_utf8;
use vstd::utf8::encode_utf8_decode_utf8;
use vstd::utf8::valid_utf8;

verus! {

broadcast use {axiom_spec_iter, next_postcondition};

/// `std::string::FromUtf8Error`, the error of `String::from_utf8`. Nothing is
/// said of what it holds, and nothing here looks into it.
#[verifier::external_type_specification]
#[verifier::external_body]
pub struct ExFromUtf8Error(std::string::FromUtf8Error);

/// `String::from_utf8` of the standard library. It succeeds exactly on valid
/// UTF-8, and the string it gives is made of the very bytes it was given.
#[verifier::external_body]
fn string_from_utf8(bytes: Vec<u8>) -> (res: Result<String, std::string::FromUtf8Error>)
    ensures
        res is Ok <==> valid_utf8(bytes@),
        res matches Ok(text) ==> encode_utf8(text@) == bytes@,
{
    String::from_utf8(bytes)
}

/// `String::push` of the standard library: the character is appended to the
/// end of the string.
#[verifier::external_body]
fn string_push(text: &mut String, c: char)
    ensures
        final(text)@ == old(text)@.push(c),
{
    text.push(c)
}

/// The text that a run of bytes spells, if there is one.
pub open spec fn spelled(bytes: Seq<u8>) -> Option<Seq<char>> {
    if valid_utf8(bytes) {
        Some(decode_utf8(bytes))
    } else {
        None
    }
}

/// The text that a run of bytes spells, if it is valid UTF-8.
pub fn text_of(bytes: Vec<u8>) -> (res: Option<String>)
    ensures
        res is Some <==> spelled(bytes@) is Some,
        res matches Some(text) ==> spelled(bytes@) == Some(text@) && encode_utf8(text@) == bytes@,
{
    match string_from_utf8(bytes) {
        Ok(text) => {
            proof {
                encode_utf8_decode_utf8(text@);
            }
            Some(text)
        },
        Err(_) => None,
    }
}

/// Control codes: U+0000 to U+001F and U+007F to U+009F.
pub open spec fn is_control(c: char) -> bool {
    c as u32 <= 0x1f || 0x7f <= c as u32 <= 0x9f
}

/// Whether a character is a control code.
pub fn char_is_control(c: char) -> (res: bool)
    ensures
        res == is_control(c),
{
    let code = c as u32;
    code <= 0x1f || (0x7f <= code && code <= 0x9f)
}

/// A text without its control codes; everything else stays, in order.
pub open spec fn strip_control(text: Seq<char>) -> Seq<char> {
    text.filter(|c: char| !is_control(c))
}

/// Removes every control code from a text.
pub fn without_control(text: &str) -> (res: String)
    ensures
        res@ == strip_control(text@),
{
    let mut res = String::new();
    let ghost keep = |c: char| !is_control(c);
    let ghost mut seen: Seq<char> = Seq::empty();
    let mut rest = text.chars();
    proof {
        reveal(Seq::filter);
    }
    loop
        invariant
            seen + rest.remaining() == text@,
            res@ == seen.filter(keep),
            keep == |c: char| !is_control(c),
            rest.decrease() is Some,
        ensures
            res@ == text@.filter(keep),
        decreases rest.decrease()->0,
    {
        let ghost before = rest.remaining();
        match rest.next() {
            Some(c) => {
                proof {
                    seen.lemma_filter_push(c, keep);
                    assert(seen.push(c) + before.drop_first() =~= seen + before);
                    seen = seen.push(c);
                }
                if !char_is_control(c) {
                    string_push(&mut res, c);
                }
            },
            None => {
                assert(seen =~= seen + before);
                break ;
            },
        }
    }
    res
}

} // verus!
