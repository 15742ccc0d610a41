//! File names: how a prefix is cut off and what the new name is.

use vstd::prelude::*;
use vstd::string::*;
use vstd::utf8::*;

verus! {

/// The prefix length that applies when none is configured: the length of a
/// 128-bit hash written in hexadecimal.
pub const DEFAULT_PREFIX_LENGTH: usize = 32;

/// Why a file cannot be given a new name.
#[derive(Debug, Clone, Copy, PartialEq, Eq, Structural)]
pub enum RenameError {
    /// The file name has fewer bytes than the prefix that is to be removed.
    PrefixTooLong,
    /// The prefix would end inside the encoding of a character.
    SplitsCharacter,
    /// The parent directory's name is wanted, and the path has no parent.
    NoParent,
}

/// The text of a name that was computed, or the error that stood in its way.
pub open spec fn name_text(r: Result<String, RenameError>) -> Result<Seq<char>, RenameError> {
    match r {
        Ok(s) => Ok(s@),
        Err(e) => Err(e),
    }
}

/// The configured prefix length, or the default where none is configured.
pub open spec fn effective_prefix_spec(prefix_length: Option<usize>) -> usize {
    match prefix_length {
        Some(n) => n,
        None => DEFAULT_PREFIX_LENGTH,
    }
}

/// Gives the prefix length that a run works with.
pub fn effective_prefix(prefix_length: Option<usize>) -> (r: usize)
    ensures
        r == effective_prefix_spec(prefix_length),
{
    match prefix_length {
        Some(n) => n,
        None => DEFAULT_PREFIX_LENGTH,
    }
}

/// What is left of `name` once its first `prefix` bytes are removed.
///
/// Offsets count bytes of the UTF-8 encoding. A prefix longer than the name
/// is an error, and so is one that ends inside a character.
pub open spec fn strip_prefix_spec(name: Seq<char>, prefix: int) -> Result<
    Seq<char>,
    RenameError,
> {
    let bytes = encode_utf8(name);
    if prefix > bytes.len() {
        Err(RenameError::PrefixTooLong)
    } else if !is_char_boundary(bytes, prefix) {
        Err(RenameError::SplitsCharacter)
    } else {
        Ok(decode_utf8(bytes.subrange(prefix, bytes.len() as int)))
    }
}

/// Removes the first `prefix` bytes of `name`.
pub fn strip_prefix(name: &str, prefix: usize) -> (r: Result<String, RenameError>)
    ensures
        name_text(r) == strip_prefix_spec(name@, prefix as int),
{
    if prefix > name.as_bytes().len() {
        return Err(RenameError::PrefixTooLong);
    }
    if !name.is_char_boundary(prefix) {
        return Err(RenameError::SplitsCharacter);
    }
    let (_, rest) = name.split_at(prefix);
    proof {
        encode_utf8_decode_utf8(rest@);
    }
    Ok(rest.to_owned())
}

/// The new base name of a file: the name without its prefix, behind the
/// parent directory's name where that is to be put in front.
pub open spec fn new_name_spec(
    dir_name: Seq<char>,
    file_name: Seq<char>,
    prefix: int,
    append_dir: bool,
) -> Result<Seq<char>, RenameError> {
    match strip_prefix_spec(file_name, prefix) {
        Ok(suffix) => Ok(
            if append_dir {
                dir_name + suffix
            } else {
                suffix
            },
        ),
        Err(e) => Err(e),
    }
}

/// Computes the new base name of the file `file_name` that lies in a
/// directory whose own base name is `dir_name`.
pub fn new_name(dir_name: &str, file_name: &str, prefix: usize, append_dir: bool) -> (r: Result<
    String,
    RenameError,
>)
    ensures
        name_text(r) == new_name_spec(dir_name@, file_name@, prefix as int, append_dir),
{
    match strip_prefix(file_name, prefix) {
        Ok(suffix) => {
            if append_dir {
                Ok(dir_name.to_owned().concat(suffix.as_str()))
            } else {
                Ok(suffix)
            }
        },
        Err(e) => Err(e),
    }
}

/// On a name made of ASCII characters bytes and characters coincide: every
/// prefix up to the name's length can be removed, and what is left is the
/// name from that character on.
pub proof fn lemma_strip_prefix_ascii(name: Seq<char>, prefix: int)
    requires
        is_ascii_chars(name),
        0 <= prefix <= name.len(),
    ensures
        strip_prefix_spec(name, prefix) == Ok::<Seq<char>, RenameError>(
            name.subrange(prefix, name.len() as int),
        ),
{
    let bytes = encode_utf8(name);
    let rest = name.subrange(prefix, name.len() as int);
    is_ascii_chars_encode_utf8(name);
    encode_utf8_valid_utf8(name);
    assert(is_ascii_chars(rest));
    is_ascii_chars_encode_utf8(rest);
    assert(bytes.subrange(prefix, bytes.len() as int) =~= encode_utf8(rest));
    encode_utf8_decode_utf8(rest);
    if prefix < bytes.len() {
        is_char_boundary_iff_not_is_continuation_byte(bytes, prefix);
        assert(name[prefix] as u8 == bytes[prefix]);
        assert('\0' <= name[prefix] <= '\u{7f}');
    } else {
        is_char_boundary_start_end_of_seq(bytes);
    }
}

/// On an ASCII file name that is at least as long as the prefix, the new name
/// is the name from character `prefix` on, behind the directory's name where
/// that is put in front.
pub proof fn lemma_new_name_ascii(
    dir_name: Seq<char>,
    file_name: Seq<char>,
    prefix: int,
    append_dir: bool,
)
    requires
        is_ascii_chars(file_name),
        0 <= prefix <= file_name.len(),
    ensures
        new_name_spec(dir_name, file_name, prefix, append_dir) == Ok::<Seq<char>, RenameError>(
            if append_dir {
                dir_name + file_name.subrange(prefix, file_name.len() as int)
            } else {
                file_name.subrange(prefix, file_name.len() as int)
            },
        ),
{
    lemma_strip_prefix_ascii(file_name, prefix);
}

/// A prefix that is longer than the name in bytes is refused, whatever else
/// is asked for.
pub proof fn lemma_short_name_fails(
    dir_name: Seq<char>,
    file_name: Seq<char>,
    prefix: int,
    append_dir: bool,
)
    requires
        encode_utf8(file_name).len() < prefix,
    ensures
        new_name_spec(dir_name, file_name, prefix, append_dir) == Err::<Seq<char>, RenameError>(
            RenameError::PrefixTooLong,
        ),
{
}

} // verus!
