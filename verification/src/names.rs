//! The names that the encoding uses, and what tells them apart.
use vstd::prelude::*;

verus! {

/// The character at place `i` of `s`, or a space where `s` is shorter.
pub open spec fn char_at(s: Seq<char>, i: int) -> char {
    if 0 <= i < s.len() {
        s[i]
    } else {
        ' '
    }
}

/// The length of a name and a few of its characters: enough to tell any
/// two names of the encoding apart.
pub open spec fn shape(s: Seq<char>) -> (nat, char, char, char, char) {
    (s.len(), char_at(s, 0), char_at(s, 1), char_at(s, 3), char_at(s, 6))
}

proof fn lemma_names_1()
    ensures
        shape("tag"@) == (3nat, 't', 'a', ' ', ' '),
        shape("children"@) == (8nat, 'c', 'h', 'l', 'e'),
        shape("attributes"@) == (10nat, 'a', 't', 'r', 'u'),
        shape("autoAttributes"@) == (14nat, 'a', 'u', 'o', 't'),
        shape("pos"@) == (3nat, 'p', 'o', ' ', ' '),
        shape("start"@) == (5nat, 's', 't', 'r', ' '),
        shape("end"@) == (3nat, 'e', 'n', ' ', ' '),
        shape("line"@) == (4nat, 'l', 'i', 'e', ' '),
        shape("col"@) == (3nat, 'c', 'o', ' ', ' '),
        shape("offset"@) == (6nat, 'o', 'f', 's', ' '),
        shape("references"@) == (10nat, 'r', 'e', 'e', 'n'),
        shape("autoReferences"@) == (14nat, 'a', 'u', 'o', 'f'),
{
    reveal_strlit("tag");
    reveal_strlit("children");
    reveal_strlit("attributes");
    reveal_strlit("autoAttributes");
    reveal_strlit("pos");
    reveal_strlit("start");
    reveal_strlit("end");
    reveal_strlit("line");
    reveal_strlit("col");
    reveal_strlit("offset");
    reveal_strlit("references");
    reveal_strlit("autoReferences");
    assert("tag"@.len() == 3);
    assert("children"@.len() == 8);
    assert("attributes"@.len() == 10);
    assert("autoAttributes"@.len() == 14);
    assert("pos"@.len() == 3);
    assert("start"@.len() == 5);
    assert("end"@.len() == 3);
    assert("line"@.len() == 4);
    assert("col"@.len() == 3);
    assert("offset"@.len() == 6);
    assert("references"@.len() == 10);
    assert("autoReferences"@.len() == 14);
}

proof fn lemma_names_2()
    ensures
        shape("footnotes"@) == (9nat, 'f', 'o', 't', 't'),
        shape("text"@) == (4nat, 't', 'e', 't', ' '),
        shape("alias"@) == (5nat, 'a', 'l', 'a', ' '),
        shape("format"@) == (6nat, 'f', 'o', 'm', ' '),
        shape("type"@) == (4nat, 't', 'y', 'e', ' '),
        shape("destination"@) == (11nat, 'd', 'e', 't', 'a'),
        shape("reference"@) == (9nat, 'r', 'e', 'e', 'n'),
        shape("level"@) == (5nat, 'l', 'e', 'e', ' '),
        shape("lang"@) == (4nat, 'l', 'a', 'g', ' '),
        shape("tight"@) == (5nat, 't', 'i', 'h', ' '),
        shape("style"@) == (5nat, 's', 't', 'l', ' '),
        shape("checkbox"@) == (8nat, 'c', 'h', 'c', 'o'),
{
    reveal_strlit("footnotes");
    reveal_strlit("text");
    reveal_strlit("alias");
    reveal_strlit("format");
    reveal_strlit("type");
    reveal_strlit("destination");
    reveal_strlit("reference");
    reveal_strlit("level");
    reveal_strlit("lang");
    reveal_strlit("tight");
    reveal_strlit("style");
    reveal_strlit("checkbox");
    assert("footnotes"@.len() == 9);
    assert("text"@.len() == 4);
    assert("alias"@.len() == 5);
    assert("format"@.len() == 6);
    assert("type"@.len() == 4);
    assert("destination"@.len() == 11);
    assert("reference"@.len() == 9);
    assert("level"@.len() == 5);
    assert("lang"@.len() == 4);
    assert("tight"@.len() == 5);
    assert("style"@.len() == 5);
    assert("checkbox"@.len() == 8);
}

proof fn lemma_names_3()
    ensures
        shape("head"@) == (4nat, 'h', 'e', 'd', ' '),
        shape("align"@) == (5nat, 'a', 'l', 'g', ' '),
        shape("label"@) == (5nat, 'l', 'a', 'e', ' '),
        shape("str"@) == (3nat, 's', 't', ' ', ' '),
        shape("soft_break"@) == (10nat, 's', 'o', 't', 'r'),
        shape("hard_break"@) == (10nat, 'h', 'a', 'd', 'r'),
        shape("non_breaking_space"@) == (18nat, 'n', 'o', '_', 'e'),
        shape("symb"@) == (4nat, 's', 'y', 'b', ' '),
        shape("verbatim"@) == (8nat, 'v', 'e', 'b', 'i'),
        shape("raw_inline"@) == (10nat, 'r', 'a', '_', 'l'),
        shape("inline_math"@) == (11nat, 'i', 'n', 'i', '_'),
        shape("display_math"@) == (12nat, 'd', 'i', 'p', 'y'),
{
    reveal_strlit("head");
    reveal_strlit("align");
    reveal_strlit("label");
    reveal_strlit("str");
    reveal_strlit("soft_break");
    reveal_strlit("hard_break");
    reveal_strlit("non_breaking_space");
    reveal_strlit("symb");
    reveal_strlit("verbatim");
    reveal_strlit("raw_inline");
    reveal_strlit("inline_math");
    reveal_strlit("display_math");
    assert("head"@.len() == 4);
    assert("align"@.len() == 5);
    assert("label"@.len() == 5);
    assert("str"@.len() == 3);
    assert("soft_break"@.len() == 10);
    assert("hard_break"@.len() == 10);
    assert("non_breaking_space"@.len() == 18);
    assert("symb"@.len() == 4);
    assert("verbatim"@.len() == 8);
    assert("raw_inline"@.len() == 10);
    assert("inline_math"@.len() == 11);
    assert("display_math"@.len() == 12);
}

proof fn lemma_names_4()
    ensures
        shape("url"@) == (3nat, 'u', 'r', ' ', ' '),
        shape("email"@) == (5nat, 'e', 'm', 'i', ' '),
        shape("footnote_reference"@) == (18nat, 'f', 'o', 't', 't'),
        shape("smart_punctuation"@) == (17nat, 's', 'm', 'r', 'p'),
        shape("emph"@) == (4nat, 'e', 'm', 'h', ' '),
        shape("strong"@) == (6nat, 's', 't', 'o', ' '),
        shape("link"@) == (4nat, 'l', 'i', 'k', ' '),
        shape("image"@) == (5nat, 'i', 'm', 'g', ' '),
        shape("span"@) == (4nat, 's', 'p', 'n', ' '),
        shape("mark"@) == (4nat, 'm', 'a', 'k', ' '),
        shape("superscript"@) == (11nat, 's', 'u', 'e', 'c'),
        shape("subscript"@) == (9nat, 's', 'u', 's', 'i'),
{
    reveal_strlit("url");
    reveal_strlit("email");
    reveal_strlit("footnote_reference");
    reveal_strlit("smart_punctuation");
    reveal_strlit("emph");
    reveal_strlit("strong");
    reveal_strlit("link");
    reveal_strlit("image");
    reveal_strlit("span");
    reveal_strlit("mark");
    reveal_strlit("superscript");
    reveal_strlit("subscript");
    assert("url"@.len() == 3);
    assert("email"@.len() == 5);
    assert("footnote_reference"@.len() == 18);
    assert("smart_punctuation"@.len() == 17);
    assert("emph"@.len() == 4);
    assert("strong"@.len() == 6);
    assert("link"@.len() == 4);
    assert("image"@.len() == 5);
    assert("span"@.len() == 4);
    assert("mark"@.len() == 4);
    assert("superscript"@.len() == 11);
    assert("subscript"@.len() == 9);
}

proof fn lemma_names_5()
    ensures
        shape("insert"@) == (6nat, 'i', 'n', 'e', ' '),
        shape("delete"@) == (6nat, 'd', 'e', 'e', ' '),
        shape("double_quoted"@) == (13nat, 'd', 'o', 'b', '_'),
        shape("single_quoted"@) == (13nat, 's', 'i', 'g', '_'),
        shape("para"@) == (4nat, 'p', 'a', 'a', ' '),
        shape("heading"@) == (7nat, 'h', 'e', 'd', 'g'),
        shape("thematic_break"@) == (14nat, 't', 'h', 'm', 'i'),
        shape("section"@) == (7nat, 's', 'e', 't', 'n'),
        shape("div"@) == (3nat, 'd', 'i', ' ', ' '),
        shape("code_block"@) == (10nat, 'c', 'o', 'e', 'l'),
        shape("raw_block"@) == (9nat, 'r', 'a', '_', 'o'),
        shape("block_quote"@) == (11nat, 'b', 'l', 'c', 'q'),
{
    reveal_strlit("insert");
    reveal_strlit("delete");
    reveal_strlit("double_quoted");
    reveal_strlit("single_quoted");
    reveal_strlit("para");
    reveal_strlit("heading");
    reveal_strlit("thematic_break");
    reveal_strlit("section");
    reveal_strlit("div");
    reveal_strlit("code_block");
    reveal_strlit("raw_block");
    reveal_strlit("block_quote");
    assert("insert"@.len() == 6);
    assert("delete"@.len() == 6);
    assert("double_quoted"@.len() == 13);
    assert("single_quoted"@.len() == 13);
    assert("para"@.len() == 4);
    assert("heading"@.len() == 7);
    assert("thematic_break"@.len() == 14);
    assert("section"@.len() == 7);
    assert("div"@.len() == 3);
    assert("code_block"@.len() == 10);
    assert("raw_block"@.len() == 9);
    assert("block_quote"@.len() == 11);
}

proof fn lemma_names_6()
    ensures
        shape("bullet_list"@) == (11nat, 'b', 'u', 'l', '_'),
        shape("list_item"@) == (9nat, 'l', 'i', 't', 't'),
        shape("task_list"@) == (9nat, 't', 'a', 'k', 'i'),
        shape("task_list_item"@) == (14nat, 't', 'a', 'k', 'i'),
        shape("ordered_list"@) == (12nat, 'o', 'r', 'e', 'd'),
        shape("definition_list"@) == (15nat, 'd', 'e', 'i', 't'),
        shape("term"@) == (4nat, 't', 'e', 'm', ' '),
        shape("definition"@) == (10nat, 'd', 'e', 'i', 't'),
        shape("caption"@) == (7nat, 'c', 'a', 't', 'n'),
        shape("cell"@) == (4nat, 'c', 'e', 'l', ' '),
        shape("row"@) == (3nat, 'r', 'o', ' ', ' '),
        shape("footnote"@) == (8nat, 'f', 'o', 't', 't'),
{
    reveal_strlit("bullet_list");
    reveal_strlit("list_item");
    reveal_strlit("task_list");
    reveal_strlit("task_list_item");
    reveal_strlit("ordered_list");
    reveal_strlit("definition_list");
    reveal_strlit("term");
    reveal_strlit("definition");
    reveal_strlit("caption");
    reveal_strlit("cell");
    reveal_strlit("row");
    reveal_strlit("footnote");
    assert("bullet_list"@.len() == 11);
    assert("list_item"@.len() == 9);
    assert("task_list"@.len() == 9);
    assert("task_list_item"@.len() == 14);
    assert("ordered_list"@.len() == 12);
    assert("definition_list"@.len() == 15);
    assert("term"@.len() == 4);
    assert("definition"@.len() == 10);
    assert("caption"@.len() == 7);
    assert("cell"@.len() == 4);
    assert("row"@.len() == 3);
    assert("footnote"@.len() == 8);
}

proof fn lemma_names_7()
    ensures
        shape("doc"@) == (3nat, 'd', 'o', ' ', ' '),
        shape("definition_list_item"@) == (20nat, 'd', 'e', 'i', 't'),
        shape("table"@) == (5nat, 't', 'a', 'l', ' '),
        shape("+"@) == (1nat, '+', ' ', ' ', ' '),
        shape("-"@) == (1nat, '-', ' ', ' ', ' '),
        shape("*"@) == (1nat, '*', ' ', ' ', ' '),
        shape("checked"@) == (7nat, 'c', 'h', 'c', 'd'),
        shape("unchecked"@) == (9nat, 'u', 'n', 'h', 'k'),
        shape("default"@) == (7nat, 'd', 'e', 'a', 't'),
        shape("left"@) == (4nat, 'l', 'e', 't', ' '),
        shape("right"@) == (5nat, 'r', 'i', 'h', ' '),
        shape("center"@) == (6nat, 'c', 'e', 't', ' '),
{
    reveal_strlit("doc");
    reveal_strlit("definition_list_item");
    reveal_strlit("table");
    reveal_strlit("+");
    reveal_strlit("-");
    reveal_strlit("*");
    reveal_strlit("checked");
    reveal_strlit("unchecked");
    reveal_strlit("default");
    reveal_strlit("left");
    reveal_strlit("right");
    reveal_strlit("center");
    assert("doc"@.len() == 3);
    assert("definition_list_item"@.len() == 20);
    assert("table"@.len() == 5);
    assert("+"@.len() == 1);
    assert("-"@.len() == 1);
    assert("*"@.len() == 1);
    assert("checked"@.len() == 7);
    assert("unchecked"@.len() == 9);
    assert("default"@.len() == 7);
    assert("left"@.len() == 4);
    assert("right"@.len() == 5);
    assert("center"@.len() == 6);
}

proof fn lemma_names_8()
    ensures
        shape("left_single_quote"@) == (17nat, 'l', 'e', 't', 'i'),
        shape("right_single_quote"@) == (18nat, 'r', 'i', 'h', 's'),
        shape("left_double_quote"@) == (17nat, 'l', 'e', 't', 'o'),
        shape("right_double_quote"@) == (18nat, 'r', 'i', 'h', 'd'),
        shape("ellipses"@) == (8nat, 'e', 'l', 'i', 'e'),
        shape("em_dash"@) == (7nat, 'e', 'm', 'd', 'h'),
        shape("en_dash"@) == (7nat, 'e', 'n', 'd', 'h'),
{
    reveal_strlit("left_single_quote");
    reveal_strlit("right_single_quote");
    reveal_strlit("left_double_quote");
    reveal_strlit("right_double_quote");
    reveal_strlit("ellipses");
    reveal_strlit("em_dash");
    reveal_strlit("en_dash");
    assert("left_single_quote"@.len() == 17);
    assert("right_single_quote"@.len() == 18);
    assert("left_double_quote"@.len() == 17);
    assert("right_double_quote"@.len() == 18);
    assert("ellipses"@.len() == 8);
    assert("em_dash"@.len() == 7);
    assert("en_dash"@.len() == 7);
}

/// The shape of every name of the encoding: field names, tags and the
/// texts of enumerated values. Two names with different shapes differ.
pub proof fn lemma_names()
    ensures
        shape("tag"@) == (3nat, 't', 'a', ' ', ' '),
        shape("children"@) == (8nat, 'c', 'h', 'l', 'e'),
        shape("attributes"@) == (10nat, 'a', 't', 'r', 'u'),
        shape("autoAttributes"@) == (14nat, 'a', 'u', 'o', 't'),
        shape("pos"@) == (3nat, 'p', 'o', ' ', ' '),
        shape("start"@) == (5nat, 's', 't', 'r', ' '),
        shape("end"@) == (3nat, 'e', 'n', ' ', ' '),
        shape("line"@) == (4nat, 'l', 'i', 'e', ' '),
        shape("col"@) == (3nat, 'c', 'o', ' ', ' '),
        shape("offset"@) == (6nat, 'o', 'f', 's', ' '),
        shape("references"@) == (10nat, 'r', 'e', 'e', 'n'),
        shape("autoReferences"@) == (14nat, 'a', 'u', 'o', 'f'),
        shape("footnotes"@) == (9nat, 'f', 'o', 't', 't'),
        shape("text"@) == (4nat, 't', 'e', 't', ' '),
        shape("alias"@) == (5nat, 'a', 'l', 'a', ' '),
        shape("format"@) == (6nat, 'f', 'o', 'm', ' '),
        shape("type"@) == (4nat, 't', 'y', 'e', ' '),
        shape("destination"@) == (11nat, 'd', 'e', 't', 'a'),
        shape("reference"@) == (9nat, 'r', 'e', 'e', 'n'),
        shape("level"@) == (5nat, 'l', 'e', 'e', ' '),
        shape("lang"@) == (4nat, 'l', 'a', 'g', ' '),
        shape("tight"@) == (5nat, 't', 'i', 'h', ' '),
        shape("style"@) == (5nat, 's', 't', 'l', ' '),
        shape("checkbox"@) == (8nat, 'c', 'h', 'c', 'o'),
        shape("head"@) == (4nat, 'h', 'e', 'd', ' '),
        shape("align"@) == (5nat, 'a', 'l', 'g', ' '),
        shape("label"@) == (5nat, 'l', 'a', 'e', ' '),
        shape("str"@) == (3nat, 's', 't', ' ', ' '),
        shape("soft_break"@) == (10nat, 's', 'o', 't', 'r'),
        shape("hard_break"@) == (10nat, 'h', 'a', 'd', 'r'),
        shape("non_breaking_space"@) == (18nat, 'n', 'o', '_', 'e'),
        shape("symb"@) == (4nat, 's', 'y', 'b', ' '),
        shape("verbatim"@) == (8nat, 'v', 'e', 'b', 'i'),
        shape("raw_inline"@) == (10nat, 'r', 'a', '_', 'l'),
        shape("inline_math"@) == (11nat, 'i', 'n', 'i', '_'),
        shape("display_math"@) == (12nat, 'd', 'i', 'p', 'y'),
        shape("url"@) == (3nat, 'u', 'r', ' ', ' '),
        shape("email"@) == (5nat, 'e', 'm', 'i', ' '),
        shape("footnote_reference"@) == (18nat, 'f', 'o', 't', 't'),
        shape("smart_punctuation"@) == (17nat, 's', 'm', 'r', 'p'),
        shape("emph"@) == (4nat, 'e', 'm', 'h', ' '),
        shape("strong"@) == (6nat, 's', 't', 'o', ' '),
        shape("link"@) == (4nat, 'l', 'i', 'k', ' '),
        shape("image"@) == (5nat, 'i', 'm', 'g', ' '),
        shape("span"@) == (4nat, 's', 'p', 'n', ' '),
        shape("mark"@) == (4nat, 'm', 'a', 'k', ' '),
        shape("superscript"@) == (11nat, 's', 'u', 'e', 'c'),
        shape("subscript"@) == (9nat, 's', 'u', 's', 'i'),
        shape("insert"@) == (6nat, 'i', 'n', 'e', ' '),
        shape("delete"@) == (6nat, 'd', 'e', 'e', ' '),
        shape("double_quoted"@) == (13nat, 'd', 'o', 'b', '_'),
        shape("single_quoted"@) == (13nat, 's', 'i', 'g', '_'),
        shape("para"@) == (4nat, 'p', 'a', 'a', ' '),
        shape("heading"@) == (7nat, 'h', 'e', 'd', 'g'),
        shape("thematic_break"@) == (14nat, 't', 'h', 'm', 'i'),
        shape("section"@) == (7nat, 's', 'e', 't', 'n'),
        shape("div"@) == (3nat, 'd', 'i', ' ', ' '),
        shape("code_block"@) == (10nat, 'c', 'o', 'e', 'l'),
        shape("raw_block"@) == (9nat, 'r', 'a', '_', 'o'),
        shape("block_quote"@) == (11nat, 'b', 'l', 'c', 'q'),
        shape("bullet_list"@) == (11nat, 'b', 'u', 'l', '_'),
        shape("list_item"@) == (9nat, 'l', 'i', 't', 't'),
        shape("task_list"@) == (9nat, 't', 'a', 'k', 'i'),
        shape("task_list_item"@) == (14nat, 't', 'a', 'k', 'i'),
        shape("ordered_list"@) == (12nat, 'o', 'r', 'e', 'd'),
        shape("definition_list"@) == (15nat, 'd', 'e', 'i', 't'),
        shape("term"@) == (4nat, 't', 'e', 'm', ' '),
        shape("definition"@) == (10nat, 'd', 'e', 'i', 't'),
        shape("caption"@) == (7nat, 'c', 'a', 't', 'n'),
        shape("cell"@) == (4nat, 'c', 'e', 'l', ' '),
        shape("row"@) == (3nat, 'r', 'o', ' ', ' '),
        shape("footnote"@) == (8nat, 'f', 'o', 't', 't'),
        shape("doc"@) == (3nat, 'd', 'o', ' ', ' '),
        shape("definition_list_item"@) == (20nat, 'd', 'e', 'i', 't'),
        shape("table"@) == (5nat, 't', 'a', 'l', ' '),
        shape("+"@) == (1nat, '+', ' ', ' ', ' '),
        shape("-"@) == (1nat, '-', ' ', ' ', ' '),
        shape("*"@) == (1nat, '*', ' ', ' ', ' '),
        shape("checked"@) == (7nat, 'c', 'h', 'c', 'd'),
        shape("unchecked"@) == (9nat, 'u', 'n', 'h', 'k'),
        shape("default"@) == (7nat, 'd', 'e', 'a', 't'),
        shape("left"@) == (4nat, 'l', 'e', 't', ' '),
        shape("right"@) == (5nat, 'r', 'i', 'h', ' '),
        shape("center"@) == (6nat, 'c', 'e', 't', ' '),
        shape("left_single_quote"@) == (17nat, 'l', 'e', 't', 'i'),
        shape("right_single_quote"@) == (18nat, 'r', 'i', 'h', 's'),
        shape("left_double_quote"@) == (17nat, 'l', 'e', 't', 'o'),
        shape("right_double_quote"@) == (18nat, 'r', 'i', 'h', 'd'),
        shape("ellipses"@) == (8nat, 'e', 'l', 'i', 'e'),
        shape("em_dash"@) == (7nat, 'e', 'm', 'd', 'h'),
        shape("en_dash"@) == (7nat, 'e', 'n', 'd', 'h'),
{
    lemma_names_1();
    lemma_names_2();
    lemma_names_3();
    lemma_names_4();
    lemma_names_5();
    lemma_names_6();
    lemma_names_7();
    lemma_names_8();
}

} // verus!
