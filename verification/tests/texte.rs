use lebontroc::texte::{est_blanc_exec, rogner};

#[test]
fn rognage_des_blancs_unicode() {
    assert_eq!(rogner("  bonjour \t\n"), "bonjour");
    assert_eq!(rogner("\u{00A0}\u{3000}a b\u{2028}"), "a b");
    assert_eq!(rogner(" \u{2003} "), "");
    assert_eq!(rogner(""), "");
    assert_eq!(rogner("sans"), "sans");
    // Même résultat que la bibliothèque standard.
    for cas in ["\u{85}x\u{1680}", "\u{200B}y", "\u{FEFF}z "] {
        assert_eq!(rogner(cas), cas.trim());
    }
}

#[test]
fn blancs_reconnus() {
    for c in ['\t', '\n', '\u{0B}', '\u{0C}', '\r', ' ', '\u{85}', '\u{A0}', '\u{1680}', '\u{2000}', '\u{200A}', '\u{2028}', '\u{2029}', '\u{202F}', '\u{205F}', '\u{3000}'] {
        assert!(est_blanc_exec(c), "{:?}", c);
        assert!(c.is_whitespace());
    }
    for c in ['a', '\u{200B}', '\u{FEFF}', '_', '\u{180E}'] {
        assert!(!est_blanc_exec(c));
        assert_eq!(c.is_whitespace(), false);
    }
}
