//! Version-resource handling: the binary layout of the translation array
//! and the query path for the language-qualified file description.
//!
//! An executable's version resource is queried twice: first for the
//! translation array, whose entries are a language word followed by a
//! codepage word, each 16 bits little-endian; then, with the first entry's
//! words written as four uppercase hexadecimal digits each, for the
//! `FileDescription` string under that language and codepage.

use vstd::prelude::*;
use vstd::string::StrSliceExecFns;
use vstd::string::StringExecFns;

verus! {

/// The 16-bit little-endian word stored at byte offset `i` of `bytes`.
pub open spec fn le_word_at(bytes: Seq<u8>, i: int) -> u16 {
    (bytes[i] + 256 * bytes[i + 1]) as u16
}

/// Reads the first language/codepage pair of a version resource's
/// translation array: the language word, then the codepage word, each
/// 16 bits little-endian. A buffer too short to hold one pair yields
/// `None` — the caller then falls back to the file stem.
pub fn parse_translation(bytes: &Vec<u8>) -> (r: Option<(u16, u16)>)
    ensures
        bytes@.len() < 4 ==> r is None,
        bytes@.len() >= 4 ==> r == Some::<(u16, u16)>(
            (le_word_at(bytes@, 0), le_word_at(bytes@, 2)),
        ),
{
    if bytes.len() < 4 {
        return None;
    }
    let language: u16 = bytes[0] as u16 + 256 * (bytes[1] as u16);
    let codepage: u16 = bytes[2] as u16 + 256 * (bytes[3] as u16);
    Some((language, codepage))
}

/// The uppercase hexadecimal digit for a value below sixteen.
pub open spec fn hex_digit(n: int) -> char {
    if n == 0 {
        '0'
    } else if n == 1 {
        '1'
    } else if n == 2 {
        '2'
    } else if n == 3 {
        '3'
    } else if n == 4 {
        '4'
    } else if n == 5 {
        '5'
    } else if n == 6 {
        '6'
    } else if n == 7 {
        '7'
    } else if n == 8 {
        '8'
    } else if n == 9 {
        '9'
    } else if n == 10 {
        'A'
    } else if n == 11 {
        'B'
    } else if n == 12 {
        'C'
    } else if n == 13 {
        'D'
    } else if n == 14 {
        'E'
    } else {
        'F'
    }
}

/// A 16-bit word written as four uppercase hexadecimal digits, most
/// significant first.
pub open spec fn hex4(w: u16) -> Seq<char> {
    seq![
        hex_digit(w as int / 4096),
        hex_digit((w as int / 256) % 16),
        hex_digit((w as int / 16) % 16),
        hex_digit(w as int % 16),
    ]
}

/// The query path for the file-description string of the given language
/// and codepage.
pub open spec fn file_description_query_spec(language: u16, codepage: u16) -> Seq<char> {
    "\\StringFileInfo\\"@ + hex4(language) + hex4(codepage) + "\\FileDescription"@
}

/// Appends the uppercase hexadecimal digit of a value below sixteen.
fn push_hex_digit(s: &mut String, n: u16)
    requires
        n < 16,
    ensures
        final(s)@ == old(s)@ + seq![hex_digit(n as int)],
{
    let ghost prefix = s@;
    match n {
        0 => {
            proof {
                reveal_strlit("0");
            }
            s.append("0");
        },
        1 => {
            proof {
                reveal_strlit("1");
            }
            s.append("1");
        },
        2 => {
            proof {
                reveal_strlit("2");
            }
            s.append("2");
        },
        3 => {
            proof {
                reveal_strlit("3");
            }
            s.append("3");
        },
        4 => {
            proof {
                reveal_strlit("4");
            }
            s.append("4");
        },
        5 => {
            proof {
                reveal_strlit("5");
            }
            s.append("5");
        },
        6 => {
            proof {
                reveal_strlit("6");
            }
            s.append("6");
        },
        7 => {
            proof {
                reveal_strlit("7");
            }
            s.append("7");
        },
        8 => {
            proof {
                reveal_strlit("8");
            }
            s.append("8");
        },
        9 => {
            proof {
                reveal_strlit("9");
            }
            s.append("9");
        },
        10 => {
            proof {
                reveal_strlit("A");
            }
            s.append("A");
        },
        11 => {
            proof {
                reveal_strlit("B");
            }
            s.append("B");
        },
        12 => {
            proof {
                reveal_strlit("C");
            }
            s.append("C");
        },
        13 => {
            proof {
                reveal_strlit("D");
            }
            s.append("D");
        },
        14 => {
            proof {
                reveal_strlit("E");
            }
            s.append("E");
        },
        _ => {
            proof {
                reveal_strlit("F");
            }
            s.append("F");
        },
    }
    assert(s@ =~= prefix + seq![hex_digit(n as int)]);
}

/// Appends a 16-bit word as four uppercase hexadecimal digits, most
/// significant first.
fn push_hex4(s: &mut String, w: u16)
    ensures
        final(s)@ == old(s)@ + hex4(w),
{
    let ghost prefix = s@;
    push_hex_digit(s, w / 4096);
    push_hex_digit(s, (w / 256) % 16);
    push_hex_digit(s, (w / 16) % 16);
    push_hex_digit(s, w % 16);
    assert(s@ =~= prefix + hex4(w));
}

/// Builds the query path for the file-description string: the string-file
/// table selected by language and codepage, four uppercase hexadecimal
/// digits each, then the `FileDescription` key.
pub fn file_description_query(language: u16, codepage: u16) -> (r: String)
    ensures
        r@ == file_description_query_spec(language, codepage),
{
    let mut s = String::from_str("\\StringFileInfo\\");
    push_hex4(&mut s, language);
    push_hex4(&mut s, codepage);
    s.append("\\FileDescription");
    s
}

} // verus!
