//! Text rules shared by the whole registry: blank detection, trimming,
//! the order in which listings are sorted, substring search and the
//! five-digit member numbers.  Everything is stated over `Seq<char>`,
//! the view of a string.

use vstd::prelude::*;
use vstd::string::*;

verus! {

/// Whether `c` is one of the code points that Unicode marks as white space.
pub open spec fn es_espacio(c: char) -> bool {
    ||| '\u{09}' <= c <= '\u{0D}'
    ||| c == ' '
    ||| c == '\u{85}'
    ||| c == '\u{A0}'
    ||| c == '\u{1680}'
    ||| '\u{2000}' <= c <= '\u{200A}'
    ||| c == '\u{2028}'
    ||| c == '\u{2029}'
    ||| c == '\u{202F}'
    ||| c == '\u{205F}'
    ||| c == '\u{3000}'
}

/// A text is blank when it is empty or made of white space only.
pub open spec fn es_blanco(s: Seq<char>) -> bool {
    forall|i: int| 0 <= i < s.len() ==> es_espacio(#[trigger] s[i])
}

/// `s` without the blanks it starts with.
pub open spec fn sin_iniciales(s: Seq<char>) -> Seq<char>
    decreases s.len(),
{
    if s.len() > 0 && s[0] == ' ' {
        sin_iniciales(s.drop_first())
    } else {
        s
    }
}

/// `s` without the blanks it ends with.
pub open spec fn sin_finales(s: Seq<char>) -> Seq<char>
    decreases s.len(),
{
    if s.len() > 0 && s.last() == ' ' {
        sin_finales(s.drop_last())
    } else {
        s
    }
}

/// `s` without the blanks around it.  Only the plain blank is taken
/// away; other white space stays.
pub open spec fn recortado(s: Seq<char>) -> Seq<char> {
    sin_finales(sin_iniciales(s))
}

/// Strict lexicographic order by code point: the order of every listing
/// that is sorted by a text column.
pub open spec fn precede(a: Seq<char>, b: Seq<char>) -> bool
    decreases a.len(),
{
    if b.len() == 0 {
        false
    } else if a.len() == 0 {
        true
    } else if a[0] != b[0] {
        a[0] < b[0]
    } else {
        precede(a.drop_first(), b.drop_first())
    }
}

/// `aguja` stands in `pajar` at offset `i`.
pub open spec fn aparece_en(pajar: Seq<char>, aguja: Seq<char>, i: int) -> bool {
    &&& 0 <= i
    &&& i + aguja.len() <= pajar.len()
    &&& pajar.subrange(i, i + aguja.len()) == aguja
}

/// Case-sensitive substring test.
pub open spec fn contiene(pajar: Seq<char>, aguja: Seq<char>) -> bool {
    exists|i: int| aparece_en(pajar, aguja, i)
}

/// The decimal digit `d` as a character.
pub open spec fn cifra(d: int) -> char {
    if d == 0 {
        '0'
    } else if d == 1 {
        '1'
    } else if d == 2 {
        '2'
    } else if d == 3 {
        '3'
    } else if d == 4 {
        '4'
    } else if d == 5 {
        '5'
    } else if d == 6 {
        '6'
    } else if d == 7 {
        '7'
    } else if d == 8 {
        '8'
    } else {
        '9'
    }
}

/// Whether `c` is a decimal digit.
pub open spec fn es_cifra(c: char) -> bool {
    '0' <= c <= '9'
}

/// `n` in decimal, without padding.
pub open spec fn decimal(n: nat) -> Seq<char>
    decreases n,
{
    if n < 10 {
        seq![cifra(n as int)]
    } else {
        decimal(n / 10).push(cifra((n % 10) as int))
    }
}

/// `k` zeros.
pub open spec fn ceros(k: nat) -> Seq<char> {
    Seq::new(k, |i: int| '0')
}

/// The member number that stands for the ordinal `n`: its decimal form,
/// padded with zeros on the left to five digits.
pub open spec fn numero_de_orden(n: nat) -> Seq<char> {
    let d = decimal(n);
    if d.len() >= 5 {
        d
    } else {
        ceros((5 - d.len()) as nat) + d
    }
}

/// A member number is exactly five decimal digits.
pub open spec fn es_numero_valido(s: Seq<char>) -> bool {
    &&& s.len() == 5
    &&& forall|i: int| 0 <= i < s.len() ==> es_cifra(#[trigger] s[i])
}

/// No text comes before itself.
pub proof fn lema_precede_irreflexiva(a: Seq<char>)
    ensures
        !precede(a, a),
    decreases a.len(),
{
    if a.len() > 0 {
        lema_precede_irreflexiva(a.drop_first());
    }
}

/// What comes before a text comes before all that the text comes before.
pub proof fn lema_precede_transitiva(a: Seq<char>, b: Seq<char>, c: Seq<char>)
    requires
        precede(a, b),
        precede(b, c),
    ensures
        precede(a, c),
    decreases a.len(),
{
    if a.len() > 0 && a[0] == b[0] && b[0] == c[0] {
        lema_precede_transitiva(a.drop_first(), b.drop_first(), c.drop_first());
    }
}

/// Of two different texts, one comes before the other.
pub proof fn lema_precede_total(a: Seq<char>, b: Seq<char>)
    ensures
        a == b || precede(a, b) || precede(b, a),
    decreases a.len(),
{
    if a.len() > 0 && b.len() > 0 && a[0] == b[0] {
        lema_precede_total(a.drop_first(), b.drop_first());
        if a.drop_first() == b.drop_first() {
            assert(a =~= seq![a[0]] + a.drop_first());
            assert(b =~= seq![b[0]] + b.drop_first());
        }
    } else if a.len() == 0 && b.len() == 0 {
        assert(a =~= b);
    }
}

/// Of two texts at most one comes before the other, and a text that
/// comes before another differs from it.
pub proof fn lema_precede_asimetrica(a: Seq<char>, b: Seq<char>)
    requires
        precede(a, b),
    ensures
        !precede(b, a),
        a != b,
{
    lema_precede_irreflexiva(a);
    if precede(b, a) {
        lema_precede_transitiva(a, b, a);
    }
}

/// Whether `c` is white space.
pub fn es_caracter_espacio(c: char) -> (r: bool)
    ensures
        r == es_espacio(c),
{
    ('\u{09}' <= c && c <= '\u{0D}') || c == ' ' || c == '\u{85}' || c == '\u{A0}' || c
        == '\u{1680}' || ('\u{2000}' <= c && c <= '\u{200A}') || c == '\u{2028}' || c
        == '\u{2029}' || c == '\u{202F}' || c == '\u{205F}' || c == '\u{3000}'
}

/// The characters of `s`, one by one.
pub fn caracteres(s: &str) -> (v: Vec<char>)
    ensures
        v@ == s@,
{
    let mut v: Vec<char> = Vec::new();
    proof {
        broadcast use vstd::string::group_string_axioms;
    }
    for c in it: s.chars()
        invariant
            it.seq() == s@,
            v@.len() == it.index(),
            forall|j: int| 0 <= j < v@.len() ==> v@[j] == it.seq()[j],
    {
        v.push(c);
    }
    assert(v@ =~= s@);
    v
}

/// Whether `s` is empty or made of white space only.
pub fn esta_en_blanco(s: &str) -> (r: bool)
    ensures
        r == es_blanco(s@),
{
    let v = caracteres(s);
    let n: usize = v.len();
    let mut i: usize = 0;
    while i < n
        invariant
            v@ == s@,
            n == v@.len(),
            i <= n,
            forall|j: int| 0 <= j < i ==> es_espacio(#[trigger] s@[j]),
        decreases n - i,
    {
        if !es_caracter_espacio(v[i]) {
            return false;
        }
        i = i + 1;
    }
    true
}

/// `s` without the blanks around it.
pub fn recortar(s: &str) -> (r: String)
    ensures
        r@ == recortado(s@),
{
    let v = caracteres(s);
    let n: usize = v.len();
    let mut i: usize = 0;
    assert(s@.subrange(0, n as int) =~= s@);
    while i < n && v[i] == ' '
        invariant
            v@ == s@,
            n == v@.len(),
            i <= n,
            sin_iniciales(s@) == sin_iniciales(s@.subrange(i as int, n as int)),
        decreases n - i,
    {
        proof {
            let t = s@.subrange(i as int, n as int);
            assert(t.drop_first() =~= s@.subrange(i + 1, n as int));
        }
        i = i + 1;
    }
    let ghost medio = s@.subrange(i as int, n as int);
    assert(sin_iniciales(s@) == medio);
    let mut j: usize = n;
    while j > i && v[j - 1] == ' '
        invariant
            v@ == s@,
            n == v@.len(),
            i <= j <= n,
            medio == s@.subrange(i as int, n as int),
            sin_finales(medio) == sin_finales(s@.subrange(i as int, j as int)),
        decreases j,
    {
        proof {
            let t = s@.subrange(i as int, j as int);
            assert(t.drop_last() =~= s@.subrange(i as int, j - 1));
        }
        j = j - 1;
    }
    s.substring_char(i, j).to_owned()
}

/// Whether `a` sorts strictly before `b`.
pub fn texto_precede(a: &str, b: &str) -> (r: bool)
    ensures
        r == precede(a@, b@),
{
    let va = caracteres(a);
    let vb = caracteres(b);
    let na: usize = va.len();
    let nb: usize = vb.len();
    let mut i: usize = 0;
    assert(a@.subrange(0, na as int) =~= a@);
    assert(b@.subrange(0, nb as int) =~= b@);
    while i < na && i < nb
        invariant
            va@ == a@,
            vb@ == b@,
            na == va@.len(),
            nb == vb@.len(),
            i <= na,
            i <= nb,
            precede(a@, b@) == precede(a@.subrange(i as int, na as int), b@.subrange(i as int, nb as int)),
        decreases na - i,
    {
        let ghost ra = a@.subrange(i as int, na as int);
        let ghost rb = b@.subrange(i as int, nb as int);
        proof {
            assert(ra.drop_first() =~= a@.subrange(i + 1, na as int));
            assert(rb.drop_first() =~= b@.subrange(i + 1, nb as int));
        }
        let ca: char = va[i];
        let cb: char = vb[i];
        if ca != cb {
            return ca < cb;
        }
        assert(ra[0] == rb[0]);
        i = i + 1;
    }
    i < nb
}

/// Whether two texts hold the same characters.
pub fn texto_igual(a: &str, b: &str) -> (r: bool)
    ensures
        r == (a@ == b@),
{
    let va = caracteres(a);
    let vb = caracteres(b);
    if va.len() != vb.len() {
        return false;
    }
    let n: usize = va.len();
    let mut i: usize = 0;
    while i < n
        invariant
            va@ == a@,
            vb@ == b@,
            n == va@.len(),
            n == vb@.len(),
            i <= n,
            forall|j: int| 0 <= j < i ==> a@[j] == b@[j],
        decreases n - i,
    {
        if va[i] != vb[i] {
            return false;
        }
        i = i + 1;
    }
    assert(a@ =~= b@);
    true
}

/// Whether `aguja` occurs somewhere in `pajar`, letter case included.
pub fn texto_contiene(pajar: &str, aguja: &str) -> (r: bool)
    ensures
        r == contiene(pajar@, aguja@),
{
    let vp = caracteres(pajar);
    let va = caracteres(aguja);
    let np: usize = vp.len();
    let na: usize = va.len();
    if na > np {
        return false;
    }
    let ultimo: usize = np - na;
    let mut i: usize = 0;
    while i <= ultimo
        invariant
            vp@ == pajar@,
            va@ == aguja@,
            np == vp@.len(),
            na == va@.len(),
            ultimo == np - na,
            i <= ultimo + 1,
            forall|k: int| 0 <= k < i ==> !aparece_en(pajar@, aguja@, k),
        decreases ultimo + 1 - i,
    {
        let mut j: usize = 0;
        while j < na && vp[i + j] == va[j]
            invariant
                vp@ == pajar@,
                va@ == aguja@,
                np == vp@.len(),
                na == va@.len(),
                ultimo == np - na,
                i <= ultimo,
                j <= na,
                forall|k: int| 0 <= k < j ==> pajar@[i + k] == aguja@[k],
            decreases na - j,
        {
            j = j + 1;
        }
        if j == na {
            assert(pajar@.subrange(i as int, i + na) =~= aguja@);
            assert(aparece_en(pajar@, aguja@, i as int));
            return true;
        }
        assert(!aparece_en(pajar@, aguja@, i as int)) by {
            if aparece_en(pajar@, aguja@, i as int) {
                assert(pajar@.subrange(i as int, i + na)[j as int] == aguja@[j as int]);
            }
        }
        i = i + 1;
    }
    false
}

/// Whether `s` is a well-formed member number.
pub fn numero_valido(s: &str) -> (r: bool)
    ensures
        r == es_numero_valido(s@),
{
    let v = caracteres(s);
    if v.len() != 5 {
        return false;
    }
    let mut i: usize = 0;
    while i < 5
        invariant
            v@ == s@,
            v@.len() == 5,
            i <= 5,
            forall|j: int| 0 <= j < i ==> es_cifra(#[trigger] s@[j]),
        decreases 5 - i,
    {
        let c: char = v[i];
        if !('0' <= c && c <= '9') {
            return false;
        }
        i = i + 1;
    }
    true
}

fn texto_de_cifra(d: u8) -> (s: &'static str)
    requires
        d < 10,
    ensures
        s@ == seq![cifra(d as int)],
{
    proof {
        reveal_strlit("0");
        reveal_strlit("1");
        reveal_strlit("2");
        reveal_strlit("3");
        reveal_strlit("4");
        reveal_strlit("5");
        reveal_strlit("6");
        reveal_strlit("7");
        reveal_strlit("8");
        reveal_strlit("9");
    }
    let s = if d == 0 {
        "0"
    } else if d == 1 {
        "1"
    } else if d == 2 {
        "2"
    } else if d == 3 {
        "3"
    } else if d == 4 {
        "4"
    } else if d == 5 {
        "5"
    } else if d == 6 {
        "6"
    } else if d == 7 {
        "7"
    } else if d == 8 {
        "8"
    } else {
        "9"
    };
    assert(s@ =~= seq![cifra(d as int)]);
    s
}

/// The digits of a number, least significant first, read back as text.
spec fn cifras_invertidas(ds: Seq<u8>) -> Seq<char> {
    Seq::new(ds.len(), |i: int| cifra(ds[ds.len() - 1 - i] as int))
}

/// The member number for the ordinal `n`.
pub fn formatear_numero(n: u32) -> (r: String)
    ensures
        r@ == numero_de_orden(n as nat),
{
    let mut ds: Vec<u8> = Vec::new();
    ds.push((n % 10) as u8);
    let mut m: u32 = n / 10;
    assert(cifras_invertidas(ds@) =~= seq![cifra((n % 10) as int)]);
    assert(m > 0 ==> decimal(n as nat) =~= decimal(m as nat) + cifras_invertidas(ds@));
    while m > 0
        invariant
            ds@.len() >= 1,
            forall|k: int| 0 <= k < ds@.len() ==> ds@[k] < 10,
            m > 0 ==> decimal(n as nat) == decimal(m as nat) + cifras_invertidas(ds@),
            m == 0 ==> decimal(n as nat) == cifras_invertidas(ds@),
        decreases m,
    {
        let d: u8 = (m % 10) as u8;
        let ghost antes = ds@;
        let ghost m0 = m;
        ds.push(d);
        m = m / 10;
        proof {
            assert(cifras_invertidas(ds@) =~= seq![cifra(d as int)] + cifras_invertidas(antes));
            if m0 < 10 {
                assert(decimal(m0 as nat) =~= seq![cifra(d as int)]);
            } else {
                assert(decimal(m0 as nat) =~= decimal(m as nat) + seq![cifra(d as int)]);
            }
            assert(decimal(n as nat) =~= decimal(m0 as nat) + cifras_invertidas(antes));
            if m > 0 {
                assert(decimal(n as nat) =~= decimal(m as nat) + cifras_invertidas(ds@));
            } else {
                assert(decimal(n as nat) =~= cifras_invertidas(ds@));
            }
        }
    }
    let len: usize = ds.len();
    let mut r: String = String::new();
    let mut relleno: usize = 0;
    if len < 5 {
        let falta: usize = 5 - len;
        while relleno < falta
            invariant
                relleno <= falta,
                r@ == ceros(relleno as nat),
            decreases falta - relleno,
        {
            proof {
                reveal_strlit("0");
            }
            r.append("0");
            relleno = relleno + 1;
            assert(r@ =~= ceros(relleno as nat));
        }
    }
    let ghost prefijo = r@;
    assert(numero_de_orden(n as nat) =~= prefijo + cifras_invertidas(ds@));
    let mut k: usize = 0;
    while k < len
        invariant
            len == ds@.len(),
            k <= len,
            forall|q: int| 0 <= q < ds@.len() ==> ds@[q] < 10,
            r@ == prefijo + cifras_invertidas(ds@).take(k as int),
        decreases len - k,
    {
        let d: u8 = ds[len - 1 - k];
        r.append(texto_de_cifra(d));
        k = k + 1;
        assert(r@ =~= prefijo + cifras_invertidas(ds@).take(k as int));
    }
    assert(cifras_invertidas(ds@).take(len as int) =~= cifras_invertidas(ds@));
    r
}

/// `a`, a space, and `b`.
pub fn unir_con_espacio(a: &str, b: &str) -> (r: String)
    ensures
        r@ == a@ + seq![' '] + b@,
{
    let mut r: String = a.to_owned();
    proof {
        reveal_strlit(" ");
    }
    r.append(" ");
    r.append(b);
    assert(r@ =~= a@ + seq![' '] + b@);
    r
}

} // verus!
