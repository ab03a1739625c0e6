use hermanar::texto::{
    caracteres, es_caracter_espacio, esta_en_blanco, formatear_numero, numero_valido, recortar,
    texto_contiene, texto_igual, texto_precede, unir_con_espacio,
};

const MUESTRAS: [&str; 14] = [
    "",
    " ",
    "a",
    "A",
    "ab",
    "abc",
    "abd",
    "b",
    "Ruiz",
    "Ruiz Lara",
    "ruiz",
    "Álvarez",
    "ñu",
    "\u{10348}",
];

#[test]
fn los_espacios_son_los_de_unicode() {
    for n in 0..=0x10FFFF_u32 {
        if let Some(c) = char::from_u32(n) {
            assert_eq!(es_caracter_espacio(c), c.is_whitespace(), "U+{:04X}", n);
        }
    }
}

#[test]
fn en_blanco_es_vacio_o_solo_espacios() {
    assert!(esta_en_blanco(""));
    assert!(esta_en_blanco("   "));
    assert!(esta_en_blanco(" \t\r\n\u{a0}\u{2003}\u{3000}"));
    assert!(!esta_en_blanco(" a "));
    assert!(!esta_en_blanco("\u{200b}"));
    assert!(!esta_en_blanco("0"));
}

#[test]
fn recortar_quita_los_blancos_de_los_extremos() {
    for s in ["", " ", "hola", "  hola \t", "\u{3000}a b\u{a0}", " \n ", "a  ", "  a", "á \u{2003}", "   "] {
        assert_eq!(recortar(s), s.trim_matches(' '), "{:?}", s);
    }
    assert_eq!(recortar("  Lara\t "), "Lara\t");
    assert_eq!(recortar(" de la Torre  "), "de la Torre");
}

#[test]
fn el_orden_de_los_textos_es_el_de_sus_caracteres() {
    for a in MUESTRAS {
        for b in MUESTRAS {
            assert_eq!(texto_precede(a, b), a < b, "{:?} {:?}", a, b);
            assert_eq!(texto_igual(a, b), a == b, "{:?} {:?}", a, b);
        }
    }
    assert!(texto_precede("00099", "00100"));
    assert!(!texto_precede("00100", "00100"));
    assert!(texto_precede("Z", "a"));
}

#[test]
fn contiene_busca_el_texto_tal_cual() {
    for a in MUESTRAS {
        for b in MUESTRAS {
            assert_eq!(texto_contiene(a, b), a.contains(b), "{:?} {:?}", a, b);
        }
    }
    assert!(texto_contiene("Ruiz Lara", "z L"));
    assert!(texto_contiene("Ruiz Lara", "Lara"));
    assert!(!texto_contiene("Ruiz Lara", "lara"));
    assert!(!texto_contiene("100%", "_"));
    assert!(texto_contiene("100%", "%"));
    assert!(!texto_contiene("aab", "abb"));
    assert!(texto_contiene("aaab", "aab"));
}

#[test]
fn el_numero_de_orden_tiene_cinco_cifras_al_menos() {
    for n in [0_u32, 1, 9, 10, 42, 99, 100, 9999, 10000, 99999, 100000, 123456, 2147483648, u32::MAX] {
        assert_eq!(formatear_numero(n), format!("{:05}", n));
    }
    assert_eq!(formatear_numero(42), "00042");
    assert_eq!(formatear_numero(100000), "100000");
}

#[test]
fn numero_valido_son_cinco_cifras() {
    for bueno in ["00000", "00042", "12345", "99999"] {
        assert!(numero_valido(bueno), "{:?}", bueno);
    }
    for malo in ["", "42", "123456", "1234", "0004a", " 0042", "00042 ", "-0042", "０００４２", "١٢٣٤٥"] {
        assert!(!numero_valido(malo), "{:?}", malo);
    }
}

#[test]
fn caracteres_y_union() {
    assert_eq!(caracteres("añu"), vec!['a', 'ñ', 'u']);
    assert!(caracteres("").is_empty());
    assert_eq!(unir_con_espacio("Ana", "Ruiz"), "Ana Ruiz");
    assert_eq!(unir_con_espacio("", ""), " ");
}
