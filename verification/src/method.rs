//! Which request methods an http 0.2 request can carry.
//!
//! A signed request may name a method that the newer HTTP types accept and the
//! http 0.2 types do not: one with `#`, `$`, `%`, `&` or `'` in it. Such a
//! request has no http 0.2 form, and this is where the library finds that out.

use vstd::prelude::*;

verus! {

/// Whether an http 0.2 method may hold this character: a letter or digit of
/// ASCII, or one of ``! * + - . ^ _ ` | ~``.
pub open spec fn is_method_char(c: char) -> bool {
    ||| 'a' <= c <= 'z'
    ||| 'A' <= c <= 'Z'
    ||| '0' <= c <= '9'
    ||| c == '!'
    ||| c == '*'
    ||| c == '+'
    ||| c == '-'
    ||| c == '.'
    ||| c == '^'
    ||| c == '_'
    ||| c == '`'
    ||| c == '|'
    ||| c == '~'
}

/// Whether a text is a method of http 0.2: not empty, and made of method
/// characters alone.
pub open spec fn is_http02x_method(method: Seq<char>) -> bool {
    &&& method.len() > 0
    &&& forall|i: int| 0 <= i < method.len() ==> is_method_char(#[trigger] method[i])
}

/// [`is_method_char`] for a byte of ASCII text.
fn is_method_byte(b: u8) -> (is_one: bool)
    requires
        b < 128,
    ensures
        is_one == is_method_char(b as char),
{
    // The letters, the digits, then `! * + - . ^ _ ` | ~`, by their ASCII codes.
    (0x61 <= b && b <= 0x7a) || (0x41 <= b && b <= 0x5a) || (0x30 <= b && b <= 0x39) || b == 0x21
        || b == 0x2a || b == 0x2b || b == 0x2d || b == 0x2e || b == 0x5e || b == 0x5f || b == 0x60
        || b == 0x7c || b == 0x7e
}

/// Whether `method` is a method of http 0.2.
pub fn fits_http02x(method: &str) -> (fits: bool)
    ensures
        fits == is_http02x_method(method@),
{
    if !method.is_ascii() {
        return false;
    }
    let bytes = method.as_bytes();
    proof {
        vstd::string::is_ascii_spec_bytes(method);
    }
    let n = bytes.len();
    if n == 0 {
        return false;
    }
    let mut i: usize = 0;
    while i < n
        invariant
            n == bytes@.len(),
            n == method@.len(),
            i <= n,
            vstd::string::is_ascii(method),
            forall|k: int| 0 <= k < n ==> bytes@[k] == (#[trigger] method@[k]) as u8,
            forall|k: int| 0 <= k < i ==> is_method_char(#[trigger] method@[k]),
        decreases n - i,
    {
        let b = bytes[i];
        assert(b as char == method@[i as int]);
        if !is_method_byte(b) {
            return false;
        }
        i = i + 1;
    }
    true
}

} // verus!
