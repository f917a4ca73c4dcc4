//! The greeting and the two functions that hand it out.
//!
//! A caller on the C side reads a string up to its first zero byte, so what
//! matters of the returned bytes is where that byte stands: here it is the
//! last one, and the bytes before it spell the text.

use vstd::prelude::*;
use vstd::string::*;
use vstd::utf8::*;

verus! {

/// The characters of the greeting, without a line break at the end.
pub open spec fn greeting_text() -> Seq<char> {
    seq!['H', 'e', 'l', 'l', 'o', ' ', 'R', 'u', 's', 't', '!']
}

/// The bytes that both entry points return: the text in ASCII, then the
/// terminating zero byte.
pub open spec fn greeting() -> Seq<u8> {
    seq![
        0x48u8, 0x65u8, 0x6cu8, 0x6cu8, 0x6fu8, 0x20u8,
        0x52u8, 0x75u8, 0x73u8, 0x74u8, 0x21u8, 0x00u8,
    ]
}

/// `bytes` ends in a zero byte and holds no other: a reader that stops at
/// the first zero byte reads all of it but the last byte.
pub open spec fn null_terminated(bytes: Seq<u8>) -> bool {
    &&& bytes.len() > 0
    &&& bytes.last() == 0u8
    &&& forall|i: int| 0 <= i < bytes.len() - 1 ==> bytes[i] != 0u8
}

/// What a reader on the C side takes from `bytes`: all that stands before
/// the terminator.
pub open spec fn text_bytes(bytes: Seq<u8>) -> Seq<u8>
    recommends
        null_terminated(bytes),
{
    bytes.drop_last()
}

/// The bytes of the literal that the entry points borrow from are the
/// greeting.
proof fn lemma_literal_is_greeting(text: &str)
    requires
        text@ == "Hello Rust!\0"@,
    ensures
        text.spec_bytes() == greeting(),
{
    reveal_strlit("Hello Rust!\0");
    assert(is_ascii_chars(text@));
    is_ascii_chars_encode_utf8(text@);
    assert(text.spec_bytes() =~= greeting());
}

/// Returns the greeting as a C string: twelve bytes, the last of them zero.
///
/// The bytes are part of the program image, so the borrow never ends and
/// nothing has to be freed.
pub fn hello_rust() -> (bytes: &'static [u8])
    ensures
        bytes@ == greeting(),
        bytes@.len() == 12,
        null_terminated(bytes@),
{
    let text: &'static str = "Hello Rust!\0";
    proof {
        lemma_literal_is_greeting(text);
    }
    text.as_bytes()
}

/// A second entry point with the contract of [`hello_rust`], kept under a
/// name of its own.
pub fn hello_rust2() -> (bytes: &'static [u8])
    ensures
        bytes@ == greeting(),
        bytes@.len() == 12,
        null_terminated(bytes@),
{
    let text: &'static str = "Hello Rust!\0";
    proof {
        lemma_literal_is_greeting(text);
    }
    text.as_bytes()
}

/// The greeting is a well-formed C string, and the part before its
/// terminator is the UTF-8 encoding of the text: eleven bytes, one for each
/// character.
pub proof fn lemma_greeting_spells_text()
    ensures
        greeting().len() == greeting_text().len() + 1,
        null_terminated(greeting()),
        text_bytes(greeting()) == encode_utf8(greeting_text()),
        decode_utf8(text_bytes(greeting())) == greeting_text(),
{
    let text = greeting_text();
    assert(is_ascii_chars(text));
    is_ascii_chars_encode_utf8(text);
    assert(text_bytes(greeting()) =~= encode_utf8(text));
    encode_utf8_decode_utf8(text);
}

/// Whatever `hello_rust` returns and whatever `hello_rust2` returns hold the
/// same bytes.
pub proof fn lemma_entry_points_agree(first: &'static [u8], second: &'static [u8])
    requires
        call_ensures(hello_rust, (), first),
        call_ensures(hello_rust2, (), second),
    ensures
        first@ == second@,
{
}

/// `bytes` is a possible result of one of the two entry points.
pub open spec fn returned_by_entry_point(bytes: &'static [u8]) -> bool {
    call_ensures(hello_rust, (), bytes) || call_ensures(hello_rust2, (), bytes)
}

/// Calls repeat: any two results, of either entry point and in either order,
/// hold the same bytes, and those are the greeting. Neither function takes
/// an argument or a mutable borrow, so no call can change what a later one
/// returns.
pub proof fn lemma_calls_repeat(earlier: &'static [u8], later: &'static [u8])
    requires
        returned_by_entry_point(earlier),
        returned_by_entry_point(later),
    ensures
        earlier@ == later@,
        later@ == greeting(),
{
}

} // verus!
