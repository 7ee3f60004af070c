//! Hex listings: bytes written as pairs of hexadecimal digits.

use vstd::prelude::*;
use crate::text::{pieces, split_char, split_whitespace, str_views, words};
use super::bin::BinImage;
use super::Image;

verus! {

/// The value of a hexadecimal digit, or 0xff for any other character.
pub open spec fn hex_value(c: char) -> u8 {
    if '0' <= c && c <= '9' {
        (c as int - '0' as int) as u8
    } else if 'a' <= c && c <= 'f' {
        (c as int - 'a' as int + 10) as u8
    } else if 'A' <= c && c <= 'F' {
        (c as int - 'A' as int + 10) as u8
    } else {
        0xff
    }
}

/// The byte two hexadecimal digits spell, if both are digits.
pub open spec fn hex_byte(hi: char, lo: char) -> Option<u8> {
    if hex_value(hi) != 0xff && hex_value(lo) != 0xff {
        Some((hex_value(hi) as int * 16 + hex_value(lo) as int) as u8)
    } else {
        None
    }
}

/// The code of a listing line: the text before its first ';' (the rest is
/// a comment).
pub open spec fn code_part(line: Seq<char>) -> Seq<char>
    decreases line.len(),
{
    if line.len() == 0 || line[0] == ';' {
        seq![]
    } else {
        seq![line[0]] + code_part(line.drop_first())
    }
}

/// Whether a token is an assembler directive (it starts with '.'), which
/// the listing skips.
pub open spec fn is_directive(token: Seq<char>) -> bool {
    token.len() > 0 && token[0] == '.'
}

/// The byte a token stands for: exactly two hexadecimal digits.
pub open spec fn token_byte(token: Seq<char>) -> Option<u8> {
    if token.len() == 2 {
        hex_byte(token[0], token[1])
    } else {
        None
    }
}

/// The bytes of a line's tokens, directives skipped, or the first token
/// that is neither a directive nor a byte.
pub open spec fn tokens_bytes(tokens: Seq<Seq<char>>) -> Result<Seq<u8>, Seq<char>>
    decreases tokens.len(),
{
    if tokens.len() == 0 {
        Ok(seq![])
    } else {
        match tokens_bytes(tokens.drop_last()) {
            Err(t) => Err(t),
            Ok(bytes) => {
                let t = tokens.last();
                if is_directive(t) {
                    Ok(bytes)
                } else {
                    match token_byte(t) {
                        Some(b) => Ok(bytes.push(b)),
                        None => Err(t),
                    }
                }
            },
        }
    }
}

/// The bytes of the listing's lines in order, or the number (from 1) of the
/// first line holding a bad token, and that token.
pub open spec fn lines_bytes(lines: Seq<Seq<char>>) -> Result<Seq<u8>, (int, Seq<char>)>
    decreases lines.len(),
{
    if lines.len() == 0 {
        Ok(seq![])
    } else {
        match lines_bytes(lines.drop_last()) {
            Err(e) => Err(e),
            Ok(bytes) => match tokens_bytes(words(code_part(lines.last()))) {
                Ok(more) => Ok(bytes + more),
                Err(t) => Err((lines.len() as int, t)),
            },
        }
    }
}

/// What a hex listing holds: its lines are split at line feeds, each
/// line's code is split into words, and every word that is not a directive
/// must be a byte.
pub open spec fn hex_listing(text: Seq<char>) -> Result<Seq<u8>, (int, Seq<char>)> {
    lines_bytes(pieces(text, '\n'))
}

/// A token of a listing that is not a byte, and the line (from 1) it is on.
pub struct HexError {
    pub line: usize,
    pub token: String,
}

/// The code part ends at the first ';'.
proof fn lemma_code_part(line: Seq<char>, k: int)
    requires
        0 <= k <= line.len(),
        forall|j: int| 0 <= j < k ==> line[j] != ';',
        k == line.len() || line[k] == ';',
    ensures
        code_part(line) == line.take(k),
    decreases k,
{
    if k == 0 {
        assert(line.take(0) =~= Seq::<char>::empty());
    } else {
        let rest = line.drop_first();
        assert forall|j: int| 0 <= j < k - 1 implies rest[j] != ';' by {
            assert(rest[j] == line[j + 1]);
        }
        if k < line.len() {
            assert(rest[k - 1] == line[k]);
        }
        lemma_code_part(rest, k - 1);
        assert(line.take(k) =~= seq![line[0]] + rest.take(k - 1));
    }
}

/// Once a prefix of the tokens fails, the whole line fails the same way.
proof fn lemma_tokens_error_sticks(tokens: Seq<Seq<char>>, i: int, t: Seq<char>)
    requires
        0 <= i <= tokens.len(),
        tokens_bytes(tokens.take(i)) == Err::<Seq<u8>, Seq<char>>(t),
    ensures
        tokens_bytes(tokens) == Err::<Seq<u8>, Seq<char>>(t),
    decreases tokens.len() - i,
{
    if i < tokens.len() {
        assert(tokens.take(i + 1).drop_last() =~= tokens.take(i));
        lemma_tokens_error_sticks(tokens, i + 1, t);
    } else {
        assert(tokens.take(i) =~= tokens);
    }
}

/// Once a prefix of the lines fails, the whole listing fails the same way.
proof fn lemma_lines_error_sticks(lines: Seq<Seq<char>>, i: int, e: (int, Seq<char>))
    requires
        0 <= i <= lines.len(),
        lines_bytes(lines.take(i)) == Err::<Seq<u8>, (int, Seq<char>)>(e),
    ensures
        lines_bytes(lines) == Err::<Seq<u8>, (int, Seq<char>)>(e),
    decreases lines.len() - i,
{
    if i < lines.len() {
        assert(lines.take(i + 1).drop_last() =~= lines.take(i));
        lemma_lines_error_sticks(lines, i + 1, e);
    } else {
        assert(lines.take(i) =~= lines);
    }
}

/// Reads hex listings.
pub struct HexLoader {}

impl HexLoader {
    /// A hex loader.
    pub fn new() -> (r: HexLoader) {
        HexLoader {}
    }

    /// The value of a hexadecimal digit, or 0xff.
    pub fn map_hex(&self, hex: char) -> (r: u8)
        ensures
            r == hex_value(hex),
    {
        if '0' <= hex && hex <= '9' {
            ((hex as u32) - ('0' as u32)) as u8
        } else if 'a' <= hex && hex <= 'f' {
            ((hex as u32) - ('a' as u32) + 10) as u8
        } else if 'A' <= hex && hex <= 'F' {
            ((hex as u32) - ('A' as u32) + 10) as u8
        } else {
            0xff
        }
    }

    /// The byte a two-byte token spells, if it is two hexadecimal digits.
    pub fn parse_byte(&self, hex: &str) -> (r: Option<u8>)
        requires
            hex.len() == 2 ==> hex.is_ascii(),
        ensures
            hex.len() == 2 ==> r == hex_byte(hex@[0], hex@[1]),
            hex.len() != 2 ==> r is None,
    {
        if hex.len() == 2 {
            proof {
                vstd::string::is_ascii_spec_bytes(hex);
            }
            let n = hex.unicode_len();
            assert(n == 2);
            let hi_byte = self.map_hex(hex.get_char(0));
            let lo_byte = self.map_hex(hex.get_char(1));
            if hi_byte != 0xff && lo_byte != 0xff {
                assert(hi_byte < 16 && lo_byte < 16);
                assert((hi_byte << 4u8) | lo_byte == hi_byte * 16 + lo_byte) by (bit_vector)
                    requires
                        hi_byte < 16,
                        lo_byte < 16,
                ;
                Some(hi_byte << 4 | lo_byte)
            } else {
                None
            }
        } else {
            None
        }
    }

    /// The code of a line: the text before its first ';'.
    fn code_of<'a>(line: &'a str) -> (r: &'a str)
        ensures
            r@ == code_part(line@),
    {
        let n = line.unicode_len();
        let mut i: usize = 0;
        while i < n && line.get_char(i) != ';'
            invariant
                n == line@.len(),
                i <= n,
                forall|j: int| 0 <= j < i ==> line@[j] != ';',
            decreases n - i,
        {
            i = i + 1;
        }
        proof {
            lemma_code_part(line@, i as int);
        }
        line.substring_char(0, i)
    }

    /// The byte a token stands for, if it is two hexadecimal digits.
    fn token_byte_of(&self, token: &str) -> (r: Option<u8>)
        ensures
            r == token_byte(token@),
    {
        if token.unicode_len() == 2 {
            let hi_byte = self.map_hex(token.get_char(0));
            let lo_byte = self.map_hex(token.get_char(1));
            if hi_byte != 0xff && lo_byte != 0xff {
                assert(hi_byte < 16 && lo_byte < 16);
                assert((hi_byte << 4u8) | lo_byte == hi_byte * 16 + lo_byte) by (bit_vector)
                    requires
                        hi_byte < 16,
                        lo_byte < 16,
                ;
                Some(hi_byte << 4 | lo_byte)
            } else {
                None
            }
        } else {
            None
        }
    }

    /// Appends the bytes of one line's code to `out`, or gives the first bad token.
    fn line_bytes(&self, code: &str, out: &mut Vec<u8>) -> (r: Result<(), String>)
        ensures
            match tokens_bytes(words(code@)) {
                Ok(bytes) => r is Ok && final(out)@ == old(out)@ + bytes,
                Err(t) => r matches Err(token) && token@ == t,
            },
    {
        let tokens = split_whitespace(code);
        let ghost views = str_views(tokens@);
        let ghost start = out@;
        let mut i: usize = 0;
        assert(views.take(0) =~= Seq::<Seq<char>>::empty());
        assert(start + Seq::<u8>::empty() =~= start);
        while i < tokens.len()
            invariant
                views == str_views(tokens@),
                views == words(code@),
                i <= tokens@.len(),
                tokens_bytes(views.take(i as int)) matches Ok(bytes) && out@ == start + bytes,
            decreases tokens@.len() - i,
        {
            let token = tokens[i];
            let ghost before = out@;
            assert(views[i as int] == token@);
            assert(views.take(i as int + 1).drop_last() =~= views.take(i as int));
            assert(views.take(i as int + 1).last() == token@);
            let directive = token.unicode_len() > 0 && token.get_char(0) == '.';
            if !directive {
                match self.token_byte_of(token) {
                    Some(b) => {
                        out.push(b);
                        proof {
                            let bytes = tokens_bytes(views.take(i as int))->Ok_0;
                            assert(out@ =~= start + bytes.push(b));
                        }
                    },
                    None => {
                        proof {
                            lemma_tokens_error_sticks(views, i as int + 1, token@);
                        }
                        return Err(String::from_str(token));
                    },
                }
            }
            i = i + 1;
        }
        assert(views.take(i as int) =~= views);
        Ok(())
    }

    /// The bytes of a hex listing, or the first token that is not a byte and
    /// its line.
    pub fn parse_listing(&self, text: &str) -> (r: Result<Vec<u8>, HexError>)
        ensures
            match hex_listing(text@) {
                Ok(bytes) => r matches Ok(v) && v@ == bytes,
                Err((line, token)) => r matches Err(e) && e.line == line && e.token@ == token,
            },
    {
        let lines = split_char(text, '\n');
        let ghost views = str_views(lines@);
        let mut out: Vec<u8> = Vec::new();
        let mut i: usize = 0;
        assert(views.take(0) =~= Seq::<Seq<char>>::empty());
        while i < lines.len()
            invariant
                views == str_views(lines@),
                views == pieces(text@, '\n'),
                i <= lines@.len(),
                lines_bytes(views.take(i as int)) == Ok::<Seq<u8>, (int, Seq<char>)>(out@),
            decreases lines@.len() - i,
        {
            let line = lines[i];
            assert(views[i as int] == line@);
            assert(views.take(i as int + 1).drop_last() =~= views.take(i as int));
            assert(views.take(i as int + 1).last() == line@);
            let code = HexLoader::code_of(line);
            match self.line_bytes(code, &mut out) {
                Ok(()) => {},
                Err(token) => {
                    proof {
                        lemma_lines_error_sticks(views, i as int + 1, ((i + 1) as int, token@));
                    }
                    return Err(HexError { line: i + 1, token });
                },
            }
            i = i + 1;
        }
        assert(views.take(i as int) =~= views);
        Ok(out)
    }

    /// Loads a hex listing as an image at `offset`.
    pub fn load(&self, text: &str, offset: u16) -> (r: Result<Image, HexError>)
        ensures
            match hex_listing(text@) {
                Ok(bytes) => r matches Ok(Image::Bin(image)) && image.data@ == bytes
                    && image.offset == offset,
                Err((line, token)) => r matches Err(e) && e.line == line && e.token@ == token,
            },
    {
        match self.parse_listing(text) {
            Ok(data) => Ok(Image::Bin(BinImage { data, offset })),
            Err(e) => Err(e),
        }
    }

    /// The word a four-byte token spells, high byte first, if it is four
    /// hexadecimal digits.
    pub fn parse_word(&self, hex: &str) -> (r: Option<u16>)
        requires
            hex.len() == 4 ==> hex.is_ascii(),
        ensures
            hex.len() == 4 ==> r == match (hex_byte(hex@[0], hex@[1]), hex_byte(hex@[2], hex@[3])) {
                (Some(hi), Some(lo)) => Some((hi as int * 256 + lo as int) as u16),
                _ => None,
            },
            hex.len() != 4 ==> r is None,
    {
        if hex.len() == 4 {
            proof {
                vstd::string::is_ascii_spec_bytes(hex);
            }
            let n = hex.unicode_len();
            assert(n == 4);
            let high = hex.substring_ascii(0, 2);
            let low = hex.substring_ascii(2, 4);
            proof {
                vstd::string::is_ascii_spec_bytes(high);
                vstd::string::is_ascii_spec_bytes(low);
                assert(high@.len() == 2 && low@.len() == 2);
                assert(high.len() == 2 && low.len() == 2);
            }
            if let Some(hi_byte) = self.parse_byte(high) {
                if let Some(lo_byte) = self.parse_byte(low) {
                    assert(((hi_byte as u16) << 8u16) | (lo_byte as u16) == hi_byte as u16 * 256 + lo_byte as u16) by (bit_vector);
                    Some(((hi_byte as u16) << 8) | (lo_byte as u16))
                } else {
                    None
                }
            } else {
                None
            }
        } else {
            None
        }
    }
}

} // verus!
