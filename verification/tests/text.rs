use fallible::text::{is_blank, trim};

#[test]
fn trim_removes_blanks_at_both_ends() {
    assert_eq!(trim("  42 \n"), "42");
    assert_eq!(trim("\t\r\n x y \t"), "x y");
}

#[test]
fn trim_keeps_blanks_inside() {
    assert_eq!(trim(" a  b "), "a  b");
}

#[test]
fn trim_leaves_tight_text_alone() {
    assert_eq!(trim("abc"), "abc");
    assert_eq!(trim("a"), "a");
}

#[test]
fn trim_of_blank_text_is_empty() {
    assert_eq!(trim(""), "");
    assert_eq!(trim(" "), "");
    assert_eq!(trim(" \t\n\r "), "");
}

#[test]
fn trim_handles_text_beyond_ascii() {
    assert_eq!(trim("\u{3000}数字\u{a0}"), "数字");
    assert_eq!(trim(" é "), "é");
    assert_eq!(trim("\u{200b}x\u{200b}"), "\u{200b}x\u{200b}");
}

#[test]
fn trim_is_idempotent() {
    for text in vec!["", " ", " a ", "a b", "\n\n12\t", "\u{2003}x y\u{2028}"] {
        assert_eq!(trim(trim(text)), trim(text));
    }
}

#[test]
fn trim_agrees_with_the_standard_trim() {
    let alphabet = [' ', '\n', 'a', '1', '\u{a0}', '数'];
    let mut texts = vec![String::new()];
    let mut from = 0;
    for _ in 0..4 {
        let upto = texts.len();
        for i in from..upto {
            for c in alphabet {
                let mut longer = texts[i].clone();
                longer.push(c);
                texts.push(longer);
            }
        }
        from = upto;
    }
    assert_eq!(texts.len(), 1 + 6 + 36 + 216 + 1296);
    for text in texts {
        assert_eq!(trim(&text), text.trim(), "on {:?}", text);
    }
}

#[test]
fn is_blank_agrees_with_the_standard_on_every_character() {
    let mut blanks = 0;
    for code in 0..=0x10ffff_u32 {
        if let Some(c) = char::from_u32(code) {
            assert_eq!(is_blank(c), c.is_whitespace(), "on U+{:04X}", code);
            if is_blank(c) {
                blanks += 1;
            }
        }
    }
    assert_eq!(blanks, 25);
}
