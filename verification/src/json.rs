//! JSON text as this crate writes it: string literals, and objects in compact
//! form whose members are strings.
//!
//! The model reads a text from left to right, as a parser would. A text that it
//! accepts is a JSON document. It does not accept every JSON document: no white
//! space between tokens, no member value but a string, and no `\u` escape of a
//! surrogate half.

use vstd::prelude::*;

verus! {

/// A member of an object as its strings: the key and the value.
pub type Member = (Seq<char>, Seq<char>);

/// The number that a hexadecimal digit stands for.
pub open spec fn hex_digit(c: char) -> Option<int> {
    if '0' <= c <= '9' {
        Some(c as int - '0' as int)
    } else if 'a' <= c <= 'f' {
        Some(c as int - 'a' as int + 10)
    } else if 'A' <= c <= 'F' {
        Some(c as int - 'A' as int + 10)
    } else {
        None
    }
}

/// The number that the four hexadecimal digits from index `i` of `text` stand for.
pub open spec fn hex_quad(text: Seq<char>, i: int) -> Option<int> {
    if 0 <= i && i + 4 <= text.len() {
        match (
            hex_digit(text[i]),
            hex_digit(text[i + 1]),
            hex_digit(text[i + 2]),
            hex_digit(text[i + 3]),
        ) {
            (Some(a), Some(b), Some(c), Some(d)) => Some(((a * 16 + b) * 16 + c) * 16 + d),
            _ => None,
        }
    } else {
        None
    }
}

/// Whether `n` is the number of a character: a code point that is no surrogate half.
pub open spec fn is_scalar(n: int) -> bool {
    0 <= n < 0xD800 || 0xE000 <= n <= 0x10FFFF
}

/// Reads what follows a backslash at index `i` of `text`: the character that
/// the escape stands for and the index after the escape.
pub open spec fn read_escape(text: Seq<char>, i: int) -> Option<(char, int)> {
    if 0 <= i < text.len() {
        let c = text[i];
        if c == '"' || c == '\\' || c == '/' {
            Some((c, i + 1))
        } else if c == 'b' {
            Some(('\u{8}', i + 1))
        } else if c == 'f' {
            Some(('\u{c}', i + 1))
        } else if c == 'n' {
            Some(('\n', i + 1))
        } else if c == 'r' {
            Some(('\r', i + 1))
        } else if c == 't' {
            Some(('\t', i + 1))
        } else if c == 'u' {
            match hex_quad(text, i + 1) {
                Some(n) => if is_scalar(n) {
                    Some((n as char, i + 5))
                } else {
                    None
                },
                None => None,
            }
        } else {
            None
        }
    } else {
        None
    }
}

/// Reads the inside of a string literal from index `i` of `text` up to the
/// closing quote: the string that was read and the index after that quote.
pub open spec fn read_string_tail(text: Seq<char>, i: int) -> Option<(Seq<char>, int)>
    decreases text.len() - i,
{
    if 0 <= i < text.len() {
        let c = text[i];
        if c == '"' {
            Some((Seq::<char>::empty(), i + 1))
        } else if c == '\\' {
            match read_escape(text, i + 1) {
                Some((e, j)) => match read_string_tail(text, j) {
                    Some((rest, end)) => Some((seq![e] + rest, end)),
                    None => None,
                },
                None => None,
            }
        } else if (c as int) < 0x20 {
            None
        } else {
            match read_string_tail(text, i + 1) {
                Some((rest, end)) => Some((seq![c] + rest, end)),
                None => None,
            }
        }
    } else {
        None
    }
}

/// Reads a string literal that opens at index `i` of `text`: the string that
/// it denotes and the index after its closing quote.
pub open spec fn read_string(text: Seq<char>, i: int) -> Option<(Seq<char>, int)> {
    if 0 <= i < text.len() && text[i] == '"' {
        read_string_tail(text, i + 1)
    } else {
        None
    }
}

/// The string that `text` denotes where the whole of it is one string
/// literal, and `None` where it is not.
pub open spec fn string_value(text: Seq<char>) -> Option<Seq<char>> {
    match read_string(text, 0) {
        Some((value, end)) => if end == text.len() {
            Some(value)
        } else {
            None
        },
        None => None,
    }
}

/// Reads the members of an object from index `i` of `text`, where a key
/// opens, up to the closing brace: the members in the order in which they
/// stand and the index after that brace.
pub open spec fn read_members(text: Seq<char>, i: int) -> Option<(Seq<Member>, int)>
    decreases text.len() - i,
{
    match read_string(text, i) {
        Some((key, j)) => if i < j < text.len() && text[j] == ':' {
            match read_string(text, j + 1) {
                Some((value, k)) => if j < k < text.len() && text[k] == ',' {
                    match read_members(text, k + 1) {
                        Some((rest, end)) => Some((seq![(key, value)] + rest, end)),
                        None => None,
                    }
                } else if j < k < text.len() && text[k] == '}' {
                    Some((seq![(key, value)], k + 1))
                } else {
                    None
                },
                None => None,
            }
        } else {
            None
        },
        None => None,
    }
}

/// The members of the object that `text` denotes where the whole of it is one
/// object, and `None` where it is not.
pub open spec fn object_members(text: Seq<char>) -> Option<Seq<Member>> {
    if text.len() >= 2 && text[0] == '{' {
        if text[1] == '}' {
            if text.len() == 2 {
                Some(Seq::<Member>::empty())
            } else {
                None
            }
        } else {
            match read_members(text, 1) {
                Some((members, end)) => if end == text.len() {
                    Some(members)
                } else {
                    None
                },
                None => None,
            }
        }
    } else {
        None
    }
}

/// The value of the first of `members` that has the key `key`, and `None`
/// where none has it.
pub open spec fn member_value(members: Seq<Member>, key: Seq<char>) -> Option<Seq<char>>
    decreases members.len(),
{
    if members.len() == 0 {
        None
    } else if members[0].0 == key {
        Some(members[0].1)
    } else {
        member_value(members.drop_first(), key)
    }
}

/// The value of the member with the key `key` in the object that `text`
/// denotes, and `None` where `text` is no object or has no such member.
pub open spec fn object_field(text: Seq<char>, key: Seq<char>) -> Option<Seq<char>> {
    match object_members(text) {
        Some(members) => member_value(members, key),
        None => None,
    }
}

/// Whether `c` stands in a string literal as itself.
pub open spec fn is_plain(c: char) -> bool {
    c as int >= 0x20 && c != '"' && c != '\\'
}

/// `s` between two quotes: the literal of `s` where `s` holds plain characters only.
pub open spec fn quoted(s: Seq<char>) -> Seq<char> {
    seq!['"'] + s + seq!['"']
}

/// The text of one member: the key's literal, a colon, the value's literal.
pub open spec fn member_text(literals: Member) -> Seq<char> {
    literals.0 + seq![':'] + literals.1
}

/// The text of the members of an object, with a comma between one and the next.
pub open spec fn members_text(literals: Seq<Member>) -> Seq<char>
    decreases literals.len(),
{
    if literals.len() == 0 {
        Seq::<char>::empty()
    } else if literals.len() == 1 {
        member_text(literals[0])
    } else {
        member_text(literals[0]) + seq![','] + members_text(literals.drop_first())
    }
}

/// The text of an object in compact form, from the literals of its keys and values.
pub open spec fn object_text(literals: Seq<Member>) -> Seq<char> {
    seq!['{'] + members_text(literals) + seq!['}']
}

/// Whether each of `literals` is a pair of string literals that denote the key
/// and the value of the member of `members` at the same place.
pub open spec fn denote(literals: Seq<Member>, members: Seq<Member>) -> bool {
    &&& literals.len() == members.len()
    &&& forall|i: int|
        0 <= i < literals.len() ==> {
            &&& string_value(#[trigger] literals[i].0) == Some(members[i].0)
            &&& string_value(literals[i].1) == Some(members[i].1)
        }
}

/// Whether `piece` stands in `text` from index `at` on.
pub open spec fn occurs_at(text: Seq<char>, at: int, piece: Seq<char>) -> bool {
    &&& 0 <= at
    &&& at + piece.len() <= text.len()
    &&& text.subrange(at, at + piece.len()) == piece
}

/// Where `piece` stands in `text`, the characters of `text` there are those of `piece`.
pub proof fn lemma_occurs_at_index(text: Seq<char>, at: int, piece: Seq<char>, j: int)
    requires
        occurs_at(text, at, piece),
        0 <= j < piece.len(),
    ensures
        text[at + j] == piece[j],
{
    assert(text.subrange(at, at + piece.len())[j] == text[at + j]);
}

/// A part of a piece that stands in a text stands there too, as far behind
/// the piece's own place as it begins within the piece.
pub proof fn lemma_occurs_at_part(
    text: Seq<char>,
    at: int,
    piece: Seq<char>,
    from: int,
    part: Seq<char>,
)
    requires
        occurs_at(text, at, piece),
        occurs_at(piece, from, part),
    ensures
        occurs_at(text, at + from, part),
{
    let here = text.subrange(at, at + piece.len());
    assert(text.subrange(at + from, at + from + part.len()) == here.subrange(
        from,
        from + part.len(),
    ));
}

/// An escape reads the same wherever the text around it is put.
pub proof fn lemma_read_escape_in_text(text: Seq<char>, at: int, piece: Seq<char>, i: int)
    requires
        occurs_at(text, at, piece),
        read_escape(piece, i) is Some,
    ensures
        read_escape(text, at + i) == Some(
            (read_escape(piece, i).unwrap().0, at + read_escape(piece, i).unwrap().1),
        ),
{
    lemma_occurs_at_index(text, at, piece, i);
    if piece[i] == 'u' {
        lemma_occurs_at_index(text, at, piece, i + 1);
        lemma_occurs_at_index(text, at, piece, i + 2);
        lemma_occurs_at_index(text, at, piece, i + 3);
        lemma_occurs_at_index(text, at, piece, i + 4);
    }
}

/// Reading the inside of a string literal ends after the index at which it began,
/// and within the text.
pub proof fn lemma_read_string_tail_end(text: Seq<char>, i: int)
    requires
        read_string_tail(text, i) is Some,
    ensures
        i < read_string_tail(text, i).unwrap().1 <= text.len(),
    decreases text.len() - i,
{
    if text[i] == '\\' {
        lemma_read_string_tail_end(text, read_escape(text, i + 1).unwrap().1);
    } else if text[i] != '"' {
        lemma_read_string_tail_end(text, i + 1);
    }
}

/// The inside of a string literal reads the same wherever the literal is put.
pub proof fn lemma_read_string_tail_in_text(text: Seq<char>, at: int, piece: Seq<char>, i: int)
    requires
        occurs_at(text, at, piece),
        read_string_tail(piece, i) is Some,
    ensures
        read_string_tail(text, at + i) == Some(
            (read_string_tail(piece, i).unwrap().0, at + read_string_tail(piece, i).unwrap().1),
        ),
    decreases piece.len() - i,
{
    lemma_occurs_at_index(text, at, piece, i);
    if piece[i] == '\\' {
        lemma_read_escape_in_text(text, at, piece, i + 1);
        lemma_read_string_tail_in_text(text, at, piece, read_escape(piece, i + 1).unwrap().1);
    } else if piece[i] != '"' {
        lemma_read_string_tail_in_text(text, at, piece, i + 1);
    }
}

/// A string literal that stands in a text is read there as the string that it
/// denotes, up to its own end.
pub proof fn lemma_read_string_in_text(text: Seq<char>, at: int, literal: Seq<char>)
    requires
        occurs_at(text, at, literal),
        string_value(literal) is Some,
    ensures
        read_string(text, at) == Some((string_value(literal).unwrap(), at + literal.len())),
        literal.len() >= 2,
        text[at] == '"',
{
    lemma_occurs_at_index(text, at, literal, 0);
    lemma_read_string_tail_end(literal, 1);
    lemma_read_string_tail_in_text(text, at, literal, 1);
}

/// The members of an object text, followed by its closing brace, are read back
/// from wherever they stand in a text.
pub proof fn lemma_read_members_in_text(
    text: Seq<char>,
    at: int,
    literals: Seq<Member>,
    members: Seq<Member>,
)
    requires
        literals.len() > 0,
        denote(literals, members),
        occurs_at(text, at, members_text(literals) + seq!['}']),
    ensures
        read_members(text, at) == Some((members, at + members_text(literals).len() + 1)),
    decreases literals.len(),
{
    let piece = members_text(literals) + seq!['}'];
    let key = literals[0].0;
    let value = literals[0].1;
    let colon: int = key.len() as int;
    let after: int = colon + 1 + value.len();
    assert(occurs_at(piece, 0, key)) by {
        assert(piece.subrange(0, colon) == key);
    }
    assert(occurs_at(piece, colon + 1, value)) by {
        assert(piece.subrange(colon + 1, after) == value);
    }
    lemma_occurs_at_part(text, at, piece, 0, key);
    lemma_occurs_at_part(text, at, piece, colon + 1, value);
    lemma_read_string_in_text(text, at, key);
    lemma_read_string_in_text(text, at + colon + 1, value);
    lemma_occurs_at_index(text, at, piece, colon);
    lemma_occurs_at_index(text, at, piece, after);
    if literals.len() == 1 {
        assert(members == seq![members[0]]);
    } else {
        let rest = literals.drop_first();
        let rest_members = members.drop_first();
        let rest_piece = members_text(rest) + seq!['}'];
        assert(denote(rest, rest_members)) by {
            assert forall|i: int| 0 <= i < rest.len() implies {
                &&& string_value(#[trigger] rest[i].0) == Some(rest_members[i].0)
                &&& string_value(rest[i].1) == Some(rest_members[i].1)
            } by {
                assert(rest[i] == literals[i + 1]);
            }
        }
        assert(occurs_at(piece, after + 1, rest_piece)) by {
            assert(piece.subrange(after + 1, piece.len() as int) == rest_piece);
        }
        lemma_occurs_at_part(text, at, piece, after + 1, rest_piece);
        lemma_read_members_in_text(text, at + after + 1, rest, rest_members);
        assert(members == seq![members[0]] + rest_members);
    }
}

/// An object text is read back as the members that its literals denote, in
/// their order.
pub proof fn lemma_object_text_members(literals: Seq<Member>, members: Seq<Member>)
    requires
        denote(literals, members),
    ensures
        object_members(object_text(literals)) == Some(members),
{
    let text = object_text(literals);
    if literals.len() == 0 {
        assert(members == Seq::<Member>::empty());
    } else {
        let piece = members_text(literals) + seq!['}'];
        let key = literals[0].0;
        assert(occurs_at(text, 1, piece)) by {
            assert(text.subrange(1, 1 + piece.len() as int) == piece);
        }
        assert(occurs_at(piece, 0, key)) by {
            assert(piece.subrange(0, key.len() as int) == key);
        }
        lemma_occurs_at_part(text, 1, piece, 0, key);
        lemma_read_string_in_text(text, 1, key);
        lemma_read_members_in_text(text, 1, literals, members);
    }
}

/// From any place within it, a quoted plain string is read to the end of the literal.
pub proof fn lemma_quoted_plain_tail(s: Seq<char>, i: int)
    requires
        0 <= i <= s.len(),
        forall|j: int| 0 <= j < s.len() ==> is_plain(#[trigger] s[j]),
    ensures
        read_string_tail(quoted(s), i + 1) == Some(
            (s.subrange(i, s.len() as int), s.len() as int + 2),
        ),
    decreases s.len() - i,
{
    if i < s.len() {
        assert(quoted(s)[i + 1] == s[i] && is_plain(s[i]));
        lemma_quoted_plain_tail(s, i + 1);
        assert(s.subrange(i, s.len() as int) == seq![s[i]] + s.subrange(i + 1, s.len() as int));
    } else {
        assert(s.subrange(i, s.len() as int) == Seq::<char>::empty());
    }
}

/// A string of plain characters between two quotes is a string literal that
/// denotes that string.
pub proof fn lemma_quoted_plain(s: Seq<char>)
    requires
        forall|j: int| 0 <= j < s.len() ==> is_plain(#[trigger] s[j]),
    ensures
        string_value(quoted(s)) == Some(s),
{
    lemma_quoted_plain_tail(s, 0);
    assert(s.subrange(0, s.len() as int) == s);
}

} // verus!
