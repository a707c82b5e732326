//! The text of a generated module, stated over sequences of characters.

use crate::decimal::{
    decimal_text, is_digit_char, lemma_decimal_text_injective, lemma_decimal_text_shape,
};
use crate::export_mode::ExportMode;
use vstd::prelude::*;

verus! {

/// The elements of an array literal: each byte in decimal notation, in
/// order, with a comma and a space between neighbours and nothing before
/// the first or after the last.
pub open spec fn array_text(bytes: Seq<u8>) -> Seq<char>
    decreases bytes.len(),
{
    if bytes.len() == 0 {
        Seq::empty()
    } else if bytes.len() == 1 {
        decimal_text(bytes[0] as nat)
    } else {
        array_text(bytes.drop_last()) + ", "@ + decimal_text(bytes.last() as nat)
    }
}

/// The statement that binds `binary` to a byte array with the given
/// elements.
pub open spec fn declaration_text(array_innards: Seq<char>) -> Seq<char> {
    "const binary = new Uint8Array(["@ + array_innards + "]);"@
}

/// The statement that exports `binary`, empty where nothing is exported.
pub open spec fn export_statement(mode: ExportMode) -> Seq<char> {
    match mode {
        ExportMode::Default => "export default binary;"@,
        ExportMode::Object => "export { binary };"@,
        ExportMode::NoExport => Seq::empty(),
    }
}

/// The declaration of an array with the given elements, followed on a line
/// of its own by the export statement of the mode, if it has one. Lines end
/// in a carriage return and a line feed.
pub open spec fn exported_text(array_innards: Seq<char>, mode: ExportMode) -> Seq<char> {
    match mode {
        ExportMode::NoExport => declaration_text(array_innards),
        _ => declaration_text(array_innards) + "\r\n"@ + export_statement(mode),
    }
}

/// The whole module generated for a byte sequence under an export mode.
pub open spec fn module_text(bytes: Seq<u8>, mode: ExportMode) -> Seq<char> {
    exported_text(array_text(bytes), mode)
}

/// The `len` characters of `text` that start at `start`.
pub open spec fn window(text: Seq<char>, start: int, len: nat) -> Seq<char> {
    text.subrange(start, start + len)
}

/// Tells whether `needle` stands somewhere in `text`, as a run of
/// neighbouring characters.
pub open spec fn occurs_in(needle: Seq<char>, text: Seq<char>) -> bool {
    exists|start: int|
        0 <= start && start + needle.len() <= text.len() && #[trigger] window(
            text,
            start,
            needle.len(),
        ) == needle
}

/// Tells whether a character may stand among the elements of an array
/// literal: a digit, a comma or a space.
pub open spec fn is_element_char(c: char) -> bool {
    is_digit_char(c) || c == ',' || c == ' '
}

/// The elements of an array literal hold digits, commas and spaces only.
pub proof fn lemma_array_text_chars(bytes: Seq<u8>)
    ensures
        forall|i: int|
            0 <= i < array_text(bytes).len() ==> is_element_char(#[trigger] array_text(bytes)[i]),
    decreases bytes.len(),
{
    reveal_strlit(", ");
    if bytes.len() == 0 {
    } else if bytes.len() == 1 {
        lemma_decimal_text_shape(bytes[0] as nat);
    } else {
        lemma_array_text_chars(bytes.drop_last());
        lemma_decimal_text_shape(bytes.last() as nat);
        let head = array_text(bytes.drop_last());
        let tail = decimal_text(bytes.last() as nat);
        assert forall|i: int| 0 <= i < array_text(bytes).len() implies is_element_char(
            #[trigger] array_text(bytes)[i],
        ) by {
            if i < head.len() {
                assert(array_text(bytes)[i] == head[i]);
            } else if i < head.len() + 2 {
                assert(array_text(bytes)[i] == ", "@[i - head.len()]);
            } else {
                assert(array_text(bytes)[i] == tail[i - head.len() - 2]);
            }
        }
    }
}

/// The elements of two byte sequences laid end to end: those of the first,
/// a separator where both have any, and those of the second.
pub proof fn lemma_array_text_concat(first: Seq<u8>, second: Seq<u8>)
    ensures
        array_text(first + second) == if first.len() == 0 {
            array_text(second)
        } else if second.len() == 0 {
            array_text(first)
        } else {
            array_text(first) + ", "@ + array_text(second)
        },
    decreases second.len(),
{
    let whole = first + second;
    if second.len() == 0 {
        assert(whole =~= first);
    } else if first.len() == 0 {
        assert(whole =~= second);
    } else {
        assert(whole.drop_last() =~= first + second.drop_last());
        assert(whole.last() == second.last());
        lemma_array_text_concat(first, second.drop_last());
        if second.len() == 1 {
            assert(second.drop_last() =~= Seq::<u8>::empty());
        } else {
            assert(array_text(whole) =~= array_text(first) + ", "@ + array_text(second));
        }
    }
}

/// Every byte stands in the text at its own place: after the elements of
/// the bytes before it and before the elements of the bytes after it.
pub proof fn lemma_array_text_element(bytes: Seq<u8>, index: int)
    requires
        0 <= index < bytes.len(),
    ensures
        array_text(bytes) == array_text(bytes.take(index)) + (if index == 0 {
            Seq::<char>::empty()
        } else {
            ", "@
        }) + decimal_text(bytes[index] as nat) + (if index == bytes.len() - 1 {
            Seq::<char>::empty()
        } else {
            ", "@
        }) + array_text(bytes.skip(index + 1)),
{
    let before = bytes.take(index);
    let here = seq![bytes[index]];
    let after = bytes.skip(index + 1);
    assert(bytes =~= before + (here + after));
    lemma_array_text_concat(here, after);
    lemma_array_text_concat(before, here + after);
    assert(array_text(here) == decimal_text(bytes[index] as nat));
    let stated = array_text(before) + (if index == 0 {
        Seq::<char>::empty()
    } else {
        ", "@
    }) + decimal_text(bytes[index] as nat) + (if index == bytes.len() - 1 {
        Seq::<char>::empty()
    } else {
        ", "@
    }) + array_text(after);
    assert(array_text(bytes) =~= stated);
}

/// The text is empty for the empty byte sequence alone.
pub proof fn lemma_array_text_empty(bytes: Seq<u8>)
    ensures
        array_text(bytes).len() == 0 <==> bytes.len() == 0,
    decreases bytes.len(),
{
    if bytes.len() > 0 {
        lemma_decimal_text_shape(bytes.last() as nat);
        if bytes.len() == 1 {
            assert(bytes.last() == bytes[0]);
        }
    }
}

/// What stands before the last element: nothing where there is one byte,
/// else the elements of the other bytes and a separator.
spec fn array_text_front(bytes: Seq<u8>) -> Seq<char>
    recommends
        bytes.len() > 0,
{
    if bytes.len() == 1 {
        Seq::empty()
    } else {
        array_text(bytes.drop_last()) + ", "@
    }
}

/// The text of a byte sequence that is not empty ends in the digits of its
/// last byte, and what stands before them does not end in a digit.
proof fn lemma_array_text_last(bytes: Seq<u8>)
    requires
        bytes.len() > 0,
    ensures
        array_text(bytes) == array_text_front(bytes) + decimal_text(bytes.last() as nat),
        array_text_front(bytes).len() > 0 ==> array_text_front(bytes).last() == ' ',
        bytes.len() > 1 <==> array_text_front(bytes).len() > 0,
{
    reveal_strlit(", ");
    if bytes.len() == 1 {
        assert(bytes.last() == bytes[0]);
        assert(array_text(bytes) =~= array_text_front(bytes) + decimal_text(bytes.last() as nat));
    }
}

/// Byte sequences with the same text are the same: the text keeps every
/// byte, in its place.
pub proof fn lemma_array_text_injective(first: Seq<u8>, second: Seq<u8>)
    requires
        array_text(first) == array_text(second),
    ensures
        first == second,
    decreases first.len(),
{
    lemma_array_text_empty(first);
    lemma_array_text_empty(second);
    if first.len() == 0 {
        assert(first =~= second);
    } else {
        let text = array_text(first);
        let first_front = array_text_front(first);
        let second_front = array_text_front(second);
        let first_digits = decimal_text(first.last() as nat);
        let second_digits = decimal_text(second.last() as nat);
        lemma_array_text_last(first);
        lemma_array_text_last(second);
        lemma_decimal_text_shape(first.last() as nat);
        lemma_decimal_text_shape(second.last() as nat);
        assert(text.len() == first_front.len() + first_digits.len());
        assert(text.len() == second_front.len() + second_digits.len());
        // The digits of the last byte reach back to the nearest space.
        if first_front.len() > second_front.len() {
            let at = first_front.len() - 1;
            assert(text[at] == first_front[at]);
            assert(text[at] == second_digits[at - second_front.len()]);
            assert(is_digit_char(second_digits[at - second_front.len()]));
            assert(false);
        }
        if second_front.len() > first_front.len() {
            let at = second_front.len() - 1;
            assert(text[at] == second_front[at]);
            assert(text[at] == first_digits[at - first_front.len()]);
            assert(is_digit_char(first_digits[at - first_front.len()]));
            assert(false);
        }
        assert(first_front =~= text.take(first_front.len() as int));
        assert(second_front =~= text.take(first_front.len() as int));
        assert(first_digits =~= text.skip(first_front.len() as int));
        assert(second_digits =~= text.skip(first_front.len() as int));
        lemma_decimal_text_injective(first.last() as nat, second.last() as nat);
        assert(first.last() == second.last());
        if first.len() == 1 {
            assert(first =~= second);
        } else {
            reveal_strlit(", ");
            let first_rest = array_text(first.drop_last());
            let second_rest = array_text(second.drop_last());
            assert(first_rest =~= first_front.take(first_front.len() - 2));
            assert(second_rest =~= second_front.take(second_front.len() - 2));
            lemma_array_text_injective(first.drop_last(), second.drop_last());
            assert(first =~= first.drop_last().push(first.last()));
            assert(second =~= second.drop_last().push(second.last()));
        }
    }
}

/// A text that lacks one character of `needle` does not hold `needle`.
pub proof fn lemma_missing_char_excludes(needle: Seq<char>, text: Seq<char>, at: int)
    requires
        0 <= at < needle.len(),
        forall|i: int| 0 <= i < text.len() ==> #[trigger] text[i] != needle[at],
    ensures
        !occurs_in(needle, text),
{
    if occurs_in(needle, text) {
        let start = choose|start: int|
            0 <= start && start + needle.len() <= text.len() && #[trigger] window(
                text,
                start,
                needle.len(),
            ) == needle;
        assert(window(text, start, needle.len())[at] == text[start + at]);
    }
}

/// Each export mode fills one fixed template: the declaration with the
/// elements between its brackets and, unless nothing is exported, a line
/// break and the export statement.
pub proof fn lemma_module_text_templates(bytes: Seq<u8>)
    ensures
        module_text(bytes, ExportMode::Default) == "const binary = new Uint8Array(["@ + array_text(
            bytes,
        ) + "]);\r\nexport default binary;"@,
        module_text(bytes, ExportMode::Object) == "const binary = new Uint8Array(["@ + array_text(
            bytes,
        ) + "]);\r\nexport { binary };"@,
        module_text(bytes, ExportMode::NoExport) == "const binary = new Uint8Array(["@
            + array_text(bytes) + "]);"@,
{
    reveal_strlit("]);");
    reveal_strlit("\r\n");
    reveal_strlit("export default binary;");
    reveal_strlit("export { binary };");
    reveal_strlit("]);\r\nexport default binary;");
    reveal_strlit("]);\r\nexport { binary };");
    assert("]);"@ + "\r\n"@ + "export default binary;"@ =~= "]);\r\nexport default binary;"@);
    assert("]);"@ + "\r\n"@ + "export { binary };"@ =~= "]);\r\nexport { binary };"@);
    let opening = "const binary = new Uint8Array(["@ + array_text(bytes);
    assert(module_text(bytes, ExportMode::Default) =~= opening + ("]);"@ + "\r\n"@
        + "export default binary;"@));
    assert(module_text(bytes, ExportMode::Object) =~= opening + ("]);"@ + "\r\n"@
        + "export { binary };"@));
}

/// With no bytes the array literal is `[]`, and the rest of the module is
/// what it is for any other input.
pub proof fn lemma_empty_module_text(mode: ExportMode)
    ensures
        array_text(Seq::<u8>::empty()) == Seq::<char>::empty(),
        declaration_text(array_text(Seq::<u8>::empty())) == "const binary = new Uint8Array([]);"@,
        module_text(Seq::<u8>::empty(), mode) == exported_text(Seq::<char>::empty(), mode),
{
    reveal_strlit("const binary = new Uint8Array([");
    reveal_strlit("]);");
    reveal_strlit("const binary = new Uint8Array([]);");
    assert(declaration_text(Seq::<char>::empty()) =~= "const binary = new Uint8Array([]);"@);
}

/// Without an export the module is the declaration alone: it holds no
/// line break and nowhere the word `export`.
pub proof fn lemma_unexported_module_text(bytes: Seq<u8>)
    ensures
        module_text(bytes, ExportMode::NoExport) == declaration_text(array_text(bytes)),
        !occurs_in("export"@, module_text(bytes, ExportMode::NoExport)),
        !occurs_in("\r\n"@, module_text(bytes, ExportMode::NoExport)),
{
    reveal_strlit("const binary = new Uint8Array([");
    reveal_strlit("]);");
    reveal_strlit("export");
    reveal_strlit("\r\n");
    lemma_array_text_chars(bytes);
    let opening = "const binary = new Uint8Array(["@;
    let elements = array_text(bytes);
    let text = module_text(bytes, ExportMode::NoExport);
    assert forall|i: int| 0 <= i < text.len() implies #[trigger] text[i] != 'x' && text[i]
        != '\r' by {
        if i < opening.len() {
            assert(text[i] == opening[i]);
        } else if i < opening.len() + elements.len() {
            assert(text[i] == elements[i - opening.len()]);
            assert(is_element_char(elements[i - opening.len()]));
        } else {
            assert(text[i] == "]);"@[i - opening.len() - elements.len()]);
        }
    }
    lemma_missing_char_excludes("export"@, text, 1);
    lemma_missing_char_excludes("\r\n"@, text, 0);
}

/// The named export and the default export are different statements, so
/// the two modes never generate the same module.
pub proof fn lemma_object_differs_from_default(bytes: Seq<u8>)
    ensures
        export_statement(ExportMode::Object) != export_statement(ExportMode::Default),
        module_text(bytes, ExportMode::Object) != module_text(bytes, ExportMode::Default),
        occurs_in("export"@, export_statement(ExportMode::Object)),
        occurs_in("export"@, export_statement(ExportMode::Default)),
        occurs_in("default"@, export_statement(ExportMode::Default)),
        !occurs_in("default"@, export_statement(ExportMode::Object)),
{
    reveal_strlit("export default binary;");
    reveal_strlit("export { binary };");
    reveal_strlit("export");
    reveal_strlit("default");
    let named = export_statement(ExportMode::Object);
    let default = export_statement(ExportMode::Default);
    assert(named.len() == 18 && default.len() == 22);
    assert(module_text(bytes, ExportMode::Object).len() != module_text(
        bytes,
        ExportMode::Default,
    ).len());
    assert(window(named, 0, 6) =~= "export"@);
    assert(window(default, 0, 6) =~= "export"@);
    assert(window(default, 7, 7) =~= "default"@);
    assert forall|i: int| 0 <= i < named.len() implies #[trigger] named[i] != 'f' by {}
    lemma_missing_char_excludes("default"@, named, 2);
}

} // verus!
