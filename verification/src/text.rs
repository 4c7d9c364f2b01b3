//! Blank text.
use vstd::prelude::*;

verus! {

/// The characters with the Unicode property `White_Space`.
pub open spec fn white_space(c: char) -> bool {
    let code = c as u32;
    ||| 0x09 <= code <= 0x0d
    ||| code == 0x20
    ||| code == 0x85
    ||| code == 0xa0
    ||| code == 0x1680
    ||| 0x2000 <= code <= 0x200a
    ||| code == 0x2028
    ||| code == 0x2029
    ||| code == 0x202f
    ||| code == 0x205f
    ||| code == 0x3000
}

/// Text of which nothing is left when white space is trimmed off it.
pub open spec fn blank(text: Seq<char>) -> bool {
    forall|i: int| 0 <= i < text.len() ==> white_space(#[trigger] text[i])
}

/// White space are these characters and no others.
pub proof fn law_white_space_is_listed(c: char)
    ensures
        white_space(c) <==> seq![
            0x09u32, 0x0a, 0x0b, 0x0c, 0x0d, 0x20, 0x85, 0xa0, 0x1680, 0x2000, 0x2001, 0x2002,
            0x2003, 0x2004, 0x2005, 0x2006, 0x2007, 0x2008, 0x2009, 0x200a, 0x2028, 0x2029, 0x202f,
            0x205f, 0x3000,
        ].contains(c as u32),
{
    let listed = seq![
        0x09u32, 0x0a, 0x0b, 0x0c, 0x0d, 0x20, 0x85, 0xa0, 0x1680, 0x2000, 0x2001, 0x2002, 0x2003,
        0x2004, 0x2005, 0x2006, 0x2007, 0x2008, 0x2009, 0x200a, 0x2028, 0x2029, 0x202f, 0x205f,
        0x3000,
    ];
    let code = c as u32;
    assert(listed[0] == 0x09 && listed[1] == 0x0a && listed[2] == 0x0b && listed[3] == 0x0c
        && listed[4] == 0x0d && listed[5] == 0x20 && listed[6] == 0x85 && listed[7] == 0xa0
        && listed[8] == 0x1680 && listed[9] == 0x2000 && listed[10] == 0x2001 && listed[11]
        == 0x2002 && listed[12] == 0x2003 && listed[13] == 0x2004 && listed[14] == 0x2005
        && listed[15] == 0x2006 && listed[16] == 0x2007 && listed[17] == 0x2008 && listed[18]
        == 0x2009 && listed[19] == 0x200a && listed[20] == 0x2028 && listed[21] == 0x2029
        && listed[22] == 0x202f && listed[23] == 0x205f && listed[24] == 0x3000);
    if listed.contains(code) {
        let i = choose|i: int| 0 <= i < listed.len() && listed[i] == code;
        assert(0 <= i < 25);
    }
}

/// One character that is not white space keeps a text from being blank, wherever it stands and
/// whatever stands around it; nothing else does.
pub proof fn law_one_character_is_not_blank(before: Seq<char>, c: char, after: Seq<char>)
    ensures
        blank(before + seq![c] + after) <==> white_space(c) && blank(before) && blank(after),
        blank(Seq::empty()),
{
    let text = before + seq![c] + after;
    assert(text[before.len() as int] == c);
    if blank(text) {
        assert forall|i: int| 0 <= i < before.len() implies white_space(#[trigger] before[i]) by {
            assert(text[i] == before[i]);
        }
        assert forall|i: int| 0 <= i < after.len() implies white_space(#[trigger] after[i]) by {
            assert(text[before.len() + 1 + i] == after[i]);
        }
    }
    if white_space(c) && blank(before) && blank(after) {
        assert forall|i: int| 0 <= i < text.len() implies white_space(#[trigger] text[i]) by {
            if i > before.len() {
                assert(text[i] == after[i - before.len() - 1]);
            }
        }
    }
}

/// A text is not blank exactly when one of its characters is not white space.
pub proof fn law_blank_is_all_white_space(text: Seq<char>)
    ensures
        !blank(text) <==> exists|i: int| 0 <= i < text.len() && !white_space(#[trigger] text[i]),
{
}

/// Whether a character is white space.
pub fn is_white_space(c: char) -> (white: bool)
    ensures
        white == white_space(c),
{
    let code: u32 = c as u32;
    (0x09 <= code && code <= 0x0d) || code == 0x20 || code == 0x85 || code == 0xa0 || code == 0x1680
        || (0x2000 <= code && code <= 0x200a) || code == 0x2028 || code == 0x2029 || code == 0x202f
        || code == 0x205f || code == 0x3000
}

/// Whether a line holds nothing but white space.
pub fn is_blank(line: &str) -> (is: bool)
    ensures
        is == blank(line@),
        is <==> forall|i: int| 0 <= i < line@.len() ==> white_space(#[trigger] line@[i]),
{
    for c in chars: line.chars()
        invariant
            chars.seq() == line@,
            forall|i: int| 0 <= i < chars.index() ==> white_space(#[trigger] line@[i]),
    {
        if !is_white_space(c) {
            assert(line@[chars.index()] == c);
            return false;
        }
    }
    true
}

} // verus!
