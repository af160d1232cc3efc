//! What the printing built-ins decide before any code is emitted: how an
//! interpolated text such as `"Hola {nombre}"` splits into literal runs and
//! placeholders, what each placeholder reads, and which `printf` format each
//! type is printed with.

use vstd::prelude::*;
use vstd::string::{StrSliceExecFns, StringExecFns};
use crate::codegen::expresiones::lema_vista_expresiones;
use crate::ast::{span_vacio, vista_expresiones, Expresion, SpecExpresion, Span, SpecTipo, Tipo, Literal, SpecLiteral};

verus! {

/// The index of the first `c` in `s`, or `s.len()` when `s` holds none.
pub open spec fn primera(s: Seq<char>, c: char) -> nat
    decreases s.len(),
{
    if s.len() == 0 {
        0
    } else if s[0] == c {
        0
    } else {
        1 + primera(s.drop_first(), c)
    }
}

/// A literal segment for `s`, or no segment when `s` is empty.
pub open spec fn literal_no_vacio(s: Seq<char>) -> Seq<(bool, Seq<char>)> {
    if s.len() == 0 {
        Seq::empty()
    } else {
        seq![(false, s)]
    }
}

/// The segments of an interpolated text, each `(es_variable, contenido)`.
///
/// The text up to the first `{` is a literal segment (dropped when empty);
/// the text after that `{` up to the next `}` (or up to the end, when no `}`
/// follows) is a placeholder; the rest, after that `}`, is split in the same
/// way.
pub open spec fn segmentos(s: Seq<char>) -> Seq<(bool, Seq<char>)>
    decreases s.len(),
{
    let k = primera(s, '{');
    if k >= s.len() {
        literal_no_vacio(s)
    } else {
        let resto = s.subrange(k + 1int, s.len() as int);
        let m = primera(resto, '}');
        let despues = if m < resto.len() {
            resto.subrange(m + 1int, resto.len() as int)
        } else {
            Seq::empty()
        };
        literal_no_vacio(s.subrange(0, k as int)) + seq![(true, resto.subrange(0, m as int))]
            + segmentos(despues)
    }
}

/// The model of a list of segments: each text by its characters.
pub open spec fn vista_segmentos(s: Seq<(bool, String)>) -> Seq<(bool, Seq<char>)> {
    s.map_values(|p: (bool, String)| (p.0, p.1@))
}

/// `primera` is the index at which a scan for `c` stops.
pub proof fn lema_primera(s: Seq<char>, c: char, j: int)
    requires
        0 <= j <= s.len(),
        forall|t: int| 0 <= t < j ==> s[t] != c,
        j == s.len() || s[j] == c,
    ensures
        primera(s, c) == j,
    decreases s.len(),
{
    if s.len() > 0 && s[0] != c {
        assert forall|t: int| 0 <= t < j - 1 implies s.drop_first()[t] != c by {
            assert(s.drop_first()[t] == s[t + 1]);
        }
        if j < s.len() {
            assert(s.drop_first()[j - 1] == s[j]);
        }
        lema_primera(s.drop_first(), c, j - 1);
    }
}

/// Splits an interpolated text into its literal runs and its placeholders.
pub fn segmentar_interpolacion(texto: &str) -> (r: Vec<(bool, String)>)
    ensures
        vista_segmentos(r@) == segmentos(texto@),
{
    let ghost s = texto@;
    let n = texto.unicode_len();
    let mut r: Vec<(bool, String)> = Vec::new();
    let mut i: usize = 0;
    assert(s.subrange(0, n as int) =~= s);
    while i < n
        invariant
            i <= n,
            n == s.len(),
            s == texto@,
            vista_segmentos(r@) + segmentos(s.subrange(i as int, n as int)) == segmentos(s),
        decreases n - i,
    {
        let ghost sub = s.subrange(i as int, n as int);
        let ghost antes = vista_segmentos(r@);
        let mut k: usize = i;
        while k < n && texto.get_char(k) != '{'
            invariant
                i <= k <= n,
                n == s.len(),
                s == texto@,
                forall|t: int| i <= t < k ==> s[t] != '{',
            decreases n - k,
        {
            k = k + 1;
        }
        proof {
            assert forall|t: int| 0 <= t < k - i implies sub[t] != '{' by {
                assert(sub[t] == s[i + t]);
            }
            if k < n {
                assert(sub[k - i] == s[k as int]);
            }
            lema_primera(sub, '{', k - i);
            assert(sub.subrange(0, k - i) =~= s.subrange(i as int, k as int));
        }
        if k > i {
            let lit = String::from_str(texto.substring_char(i, k));
            r.push((false, lit));
        }
        proof {
            assert(vista_segmentos(r@) =~= antes + literal_no_vacio(s.subrange(i as int, k as int)));
        }
        if k == n {
            proof {
                assert(segmentos(sub) == literal_no_vacio(sub));
                assert(sub =~= s.subrange(i as int, k as int));
                assert(s.subrange(n as int, n as int) =~= Seq::<char>::empty());
                assert(segmentos(Seq::<char>::empty()) =~= Seq::<(bool, Seq<char>)>::empty());
                assert(vista_segmentos(r@) + segmentos(s.subrange(n as int, n as int)) =~= vista_segmentos(r@));
            }
            i = n;
        } else {
            let ghost resto = sub.subrange(k - i + 1, sub.len() as int);
            assert(resto =~= s.subrange(k + 1, n as int));
            let mut m: usize = k + 1;
            while m < n && texto.get_char(m) != '}'
                invariant
                    k < m <= n,
                    n == s.len(),
                    s == texto@,
                    forall|t: int| k < t < m ==> s[t] != '}',
                decreases n - m,
            {
                m = m + 1;
            }
            proof {
                assert forall|t: int| 0 <= t < m - k - 1 implies resto[t] != '}' by {
                    assert(resto[t] == s[k + 1 + t]);
                }
                if m < n {
                    assert(resto[m - k - 1] == s[m as int]);
                }
                lema_primera(resto, '}', m - k - 1);
                assert(resto.subrange(0, m - k - 1) =~= s.subrange(k + 1, m as int));
            }
            let nombre = String::from_str(texto.substring_char(k + 1, m));
            r.push((true, nombre));
            let ghost despues = if m < n {
                resto.subrange(m - k, resto.len() as int)
            } else {
                Seq::<char>::empty()
            };
            let siguiente: usize = if m < n { m + 1 } else { n };
            proof {
                assert(despues =~= s.subrange(siguiente as int, n as int));
                assert(segmentos(sub) == literal_no_vacio(s.subrange(i as int, k as int)) + seq![
                    (true, s.subrange(k + 1, m as int)),
                ] + segmentos(despues));
                assert(vista_segmentos(r@) =~= antes + literal_no_vacio(s.subrange(i as int, k as int))
                    + seq![(true, s.subrange(k + 1, m as int))]);
                assert(antes + segmentos(sub) =~= vista_segmentos(r@) + segmentos(despues));
            }
            i = siguiente;
        }
    }
    proof {
        assert(s.subrange(n as int, n as int) =~= Seq::<char>::empty());
        assert(segmentos(Seq::<char>::empty()) =~= Seq::<(bool, Seq<char>)>::empty());
        assert(vista_segmentos(r@) + segmentos(s.subrange(n as int, n as int)) =~= vista_segmentos(r@));
    }
    r
}

/// What `primera` finds: no `c` before it, and `c` at it unless it is the end.
pub proof fn lema_primera_hallada(s: Seq<char>, c: char)
    ensures
        primera(s, c) <= s.len(),
        forall|t: int| 0 <= t < primera(s, c) ==> s[t] != c,
        primera(s, c) < s.len() ==> s[primera(s, c) as int] == c,
    decreases s.len(),
{
    if s.len() > 0 && s[0] != c {
        lema_primera_hallada(s.drop_first(), c);
        assert forall|t: int| 0 <= t < primera(s, c) implies s[t] != c by {
            if t > 0 {
                assert(s[t] == s.drop_first()[t - 1]);
            }
        }
        if primera(s, c) < s.len() {
            assert(s[primera(s, c) as int] == s.drop_first()[primera(s, c) - 1]);
        }
    }
}

/// The text that a list of segments writes: each literal as it is and each
/// placeholder between braces.
pub open spec fn recompuesto(segs: Seq<(bool, Seq<char>)>) -> Seq<char>
    decreases segs.len(),
{
    if segs.len() == 0 {
        Seq::empty()
    } else {
        let pieza = if segs[0].0 {
            seq!['{'] + segs[0].1 + seq!['}']
        } else {
            segs[0].1
        };
        pieza + recompuesto(segs.drop_first())
    }
}

/// Every `{` of `s` is closed by a `}` somewhere after it.
pub open spec fn llaves_cerradas(s: Seq<char>) -> bool {
    forall|i: int|
        0 <= i < s.len() && #[trigger] s[i] == '{' ==> exists|j: int| i < j < s.len() && s[j] == '}'
}

/// A literal segment is not empty and holds no `{`; a placeholder holds no `}`.
pub open spec fn segmento_bien_formado(p: (bool, Seq<char>)) -> bool {
    if p.0 {
        !p.1.contains('}')
    } else {
        p.1.len() > 0 && !p.1.contains('{')
    }
}

/// Rebuilding the text of two lists of segments one after the other.
pub proof fn lema_recompuesto_concat(a: Seq<(bool, Seq<char>)>, b: Seq<(bool, Seq<char>)>)
    ensures
        recompuesto(a + b) == recompuesto(a) + recompuesto(b),
    decreases a.len(),
{
    if a.len() == 0 {
        assert(a + b =~= b);
    } else {
        assert((a + b).drop_first() =~= a.drop_first() + b);
        lema_recompuesto_concat(a.drop_first(), b);
        assert((a + b)[0] == a[0]);
    }
}

/// Rebuilding the text of a single segment.
pub proof fn lema_recompuesto_uno(p: (bool, Seq<char>))
    ensures
        recompuesto(seq![p]) == (if p.0 {
            seq!['{'] + p.1 + seq!['}']
        } else {
            p.1
        }),
{
    assert(seq![p].drop_first() =~= Seq::<(bool, Seq<char>)>::empty());
    assert(recompuesto(Seq::<(bool, Seq<char>)>::empty()) == Seq::<char>::empty());
    assert(seq![p][0] == p);
    let pieza = if p.0 {
        seq!['{'] + p.1 + seq!['}']
    } else {
        p.1
    };
    assert(pieza + Seq::<char>::empty() =~= pieza);
}

/// Splitting an interpolated text loses nothing: when every `{` is closed,
/// writing the segments back (placeholders between braces) gives the text.
pub proof fn ley_reconstruccion(s: Seq<char>)
    requires
        llaves_cerradas(s),
    ensures
        recompuesto(segmentos(s)) == s,
    decreases s.len(),
{
    let k = primera(s, '{');
    lema_primera_hallada(s, '{');
    if k >= s.len() {
        if s.len() > 0 {
            lema_recompuesto_uno((false, s));
        }
        assert(recompuesto(literal_no_vacio(s)) =~= s);
    } else {
        let resto = s.subrange(k + 1int, s.len() as int);
        let m = primera(resto, '}');
        lema_primera_hallada(resto, '}');
        assert(s[k as int] == '{');
        let j = choose|j: int| k < j < s.len() && s[j] == '}';
        assert(resto[j - k - 1] == s[j]);
        assert(m < resto.len());
        let despues = resto.subrange(m + 1int, resto.len() as int);
        assert(despues =~= s.subrange(k + 1 + m + 1int, s.len() as int));
        assert forall|i: int| 0 <= i < despues.len() && #[trigger] despues[i] == '{' implies exists|
            j2: int,
        | i < j2 < despues.len() && despues[j2] == '}' by {
            let d: int = (k + 1 + m + 1) as int;
            assert(s[d + i] == despues[i]);
            let w = choose|w: int| d + i < w < s.len() && s[w] == '}';
            assert(despues[w - d] == s[w]);
        }
        ley_reconstruccion(despues);
        let lit = literal_no_vacio(s.subrange(0, k as int));
        let nombre = resto.subrange(0, m as int);
        let marca = seq![(true, nombre)];
        lema_recompuesto_concat(lit + marca, segmentos(despues));
        lema_recompuesto_concat(lit, marca);
        if k > 0 {
            lema_recompuesto_uno((false, s.subrange(0, k as int)));
        }
        assert(recompuesto(lit) =~= s.subrange(0, k as int));
        lema_recompuesto_uno((true, nombre));
        assert(resto[m as int] == '}');
        assert(s.subrange(0, k as int) + (seq!['{'] + nombre + seq!['}']) + despues =~= s);
    }
}

/// Every segment is well formed: literals are non-empty runs without `{`,
/// placeholders hold no `}`.
pub proof fn ley_segmentos_bien_formados(s: Seq<char>)
    ensures
        forall|j: int| 0 <= j < segmentos(s).len() ==> segmento_bien_formado(#[trigger] segmentos(s)[j]),
    decreases s.len(),
{
    let k = primera(s, '{');
    lema_primera_hallada(s, '{');
    if k >= s.len() {
        if s.len() > 0 {
            assert(segmento_bien_formado((false, s)));
        }
    } else {
        let resto = s.subrange(k + 1int, s.len() as int);
        let m = primera(resto, '}');
        lema_primera_hallada(resto, '}');
        let despues = if m < resto.len() {
            resto.subrange(m + 1int, resto.len() as int)
        } else {
            Seq::empty()
        };
        ley_segmentos_bien_formados(despues);
        let lit = literal_no_vacio(s.subrange(0, k as int));
        let nombre = resto.subrange(0, m as int);
        assert(!nombre.contains('}')) by {
            if nombre.contains('}') {
                let t = choose|t: int| 0 <= t < nombre.len() && nombre[t] == '}';
                assert(resto[t] == nombre[t]);
            }
        }
        if k > 0 {
            let l = s.subrange(0, k as int);
            assert(!l.contains('{')) by {
                if l.contains('{') {
                    let t = choose|t: int| 0 <= t < l.len() && l[t] == '{';
                    assert(s[t] == l[t]);
                }
            }
            assert(segmento_bien_formado(lit[0]));
        }
        let segs = segmentos(s);
        assert(segs == lit + seq![(true, nombre)] + segmentos(despues));
        assert forall|j: int| 0 <= j < segs.len() implies segmento_bien_formado(#[trigger] segs[j]) by {
            if j < lit.len() {
                assert(segs[j] == lit[j]);
            } else if j == lit.len() {
                assert(segs[j] == (true, nombre));
            } else {
                assert(segs[j] == segmentos(despues)[j - lit.len() - 1]);
            }
        }
    }
}

/// The index of the first `c` at or after `desde` in `texto`, or the length
/// of `texto` when none follows.
fn buscar_caracter(texto: &str, desde: usize, c: char) -> (r: usize)
    requires
        desde <= texto@.len(),
    ensures
        r == desde + primera(texto@.subrange(desde as int, texto@.len() as int), c),
        r <= texto@.len(),
{
    let ghost s = texto@;
    let n = texto.unicode_len();
    let mut k: usize = desde;
    while k < n && texto.get_char(k) != c
        invariant
            desde <= k <= n,
            n == s.len(),
            s == texto@,
            forall|t: int| desde <= t < k ==> s[t] != c,
        decreases n - k,
    {
        k = k + 1;
    }
    let ghost sub = s.subrange(desde as int, n as int);
    proof {
        assert forall|t: int| 0 <= t < k - desde implies sub[t] != c by {
            assert(sub[t] == s[desde + t]);
        }
        if k < n {
            assert(sub[k - desde] == s[k as int]);
        }
        lema_primera(sub, c, k - desde);
    }
    k
}

/// Whether `c` occurs in `s` is whether `primera` stops before the end.
pub proof fn lema_contiene_primera(s: Seq<char>, c: char)
    ensures
        s.contains(c) <==> primera(s, c) < s.len(),
{
    lema_primera_hallada(s, c);
    if primera(s, c) < s.len() {
        assert(s[primera(s, c) as int] == c);
    }
}

/// The base and the field of a placeholder `base.campo`: its text holds
/// exactly one `.`, which separates them.
pub open spec fn campo_interpolado(c: Seq<char>) -> Option<(Seq<char>, Seq<char>)> {
    let k = primera(c, '.');
    if k < c.len() && !c.subrange(k + 1int, c.len() as int).contains('.') {
        Some((c.subrange(0, k as int), c.subrange(k + 1int, c.len() as int)))
    } else {
        None
    }
}

/// The expression `base.campo` that a placeholder reads.
pub open spec fn lectura_de_campo(base: Seq<char>, campo: Seq<char>) -> SpecExpresion {
    SpecExpresion::AccesoCampo(
        Box::new(SpecExpresion::Identificador(base, span_vacio())),
        campo,
        span_vacio(),
    )
}

/// What a segment of an interpolated text prints.
#[derive(Debug, PartialEq)]
pub enum ParteInterpolada {
    /// A literal run, printed as it is.
    Literal(String),
    /// A placeholder without `.`: the variable of that name, printed by its type.
    Variable(String),
    /// A placeholder `base.campo`: the field read by this expression, printed by its type.
    Campo(Expresion),
    /// A placeholder with two or more `.`: nothing is printed for it.
    Omitida,
    /// The end of the line of `imprimir_linea`: a newline, then the output is flushed.
    FinDeLinea,
}

/// The model of a [`ParteInterpolada`].
pub enum SpecParteInterpolada {
    Literal(Seq<char>),
    Variable(Seq<char>),
    Campo(SpecExpresion),
    Omitida,
    FinDeLinea,
}

impl View for ParteInterpolada {
    type V = SpecParteInterpolada;

    open spec fn view(&self) -> SpecParteInterpolada {
        match self {
            ParteInterpolada::Literal(t) => SpecParteInterpolada::Literal(t@),
            ParteInterpolada::Variable(n) => SpecParteInterpolada::Variable(n@),
            ParteInterpolada::Campo(e) => SpecParteInterpolada::Campo(e@),
            ParteInterpolada::Omitida => SpecParteInterpolada::Omitida,
            ParteInterpolada::FinDeLinea => SpecParteInterpolada::FinDeLinea,
        }
    }
}

/// What a segment prints.
pub open spec fn parte_de_segmento(p: (bool, Seq<char>)) -> SpecParteInterpolada {
    if !p.0 {
        SpecParteInterpolada::Literal(p.1)
    } else if !p.1.contains('.') {
        SpecParteInterpolada::Variable(p.1)
    } else {
        match campo_interpolado(p.1) {
            Some((base, campo)) => SpecParteInterpolada::Campo(lectura_de_campo(base, campo)),
            None => SpecParteInterpolada::Omitida,
        }
    }
}

/// What each segment of an interpolated text prints, in order.
pub open spec fn partes_interpoladas(s: Seq<char>, con_newline: bool) -> Seq<SpecParteInterpolada> {
    segmentos(s).map_values(|p: (bool, Seq<char>)| parte_de_segmento(p)) + if con_newline {
        seq![SpecParteInterpolada::FinDeLinea]
    } else {
        Seq::empty()
    }
}

/// Decides what a segment `(es_variable, contenido)` prints.
pub fn clasificar_segmento(es_variable: bool, contenido: &str) -> (r: ParteInterpolada)
    ensures
        r@ == parte_de_segmento((es_variable, contenido@)),
{
    if !es_variable {
        return ParteInterpolada::Literal(String::from_str(contenido));
    }
    let ghost c = contenido@;
    let n = contenido.unicode_len();
    let k = buscar_caracter(contenido, 0, '.');
    proof {
        assert(c.subrange(0, c.len() as int) =~= c);
        lema_contiene_primera(c, '.');
    }
    if k == n {
        return ParteInterpolada::Variable(String::from_str(contenido));
    }
    let k2 = buscar_caracter(contenido, k + 1, '.');
    proof {
        lema_contiene_primera(c.subrange(k + 1int, c.len() as int), '.');
    }
    if k2 < n {
        ParteInterpolada::Omitida
    } else {
        let base = String::from_str(contenido.substring_char(0, k));
        let campo = String::from_str(contenido.substring_char(k + 1, n));

        let id = Expresion::Identificador(base, Span::vacio());
        assert(id@ == SpecExpresion::Identificador(c.subrange(0, k as int), span_vacio()));
        let e = Expresion::AccesoCampo(
            Box::new(id),
            campo,
            Span::vacio(),
        );
        assert(e@ == lectura_de_campo(c.subrange(0, k as int), c.subrange(k + 1int, c.len() as int)));
        ParteInterpolada::Campo(e)
    }
}

/// Decides what an interpolated text prints: its segments in order, each
/// classified by [`clasificar_segmento`], then, for `imprimir_linea`
/// (`con_newline`), the end of the line.
pub fn plan_interpolacion(texto: &str, con_newline: bool) -> (r: Vec<ParteInterpolada>)
    ensures
        r@.map_values(|p: ParteInterpolada| p@) == partes_interpoladas(texto@, con_newline),
{
    let segs = segmentar_interpolacion(texto);
    let ghost objetivo = partes_interpoladas(texto@, con_newline);
    let mut r: Vec<ParteInterpolada> = Vec::new();
    let mut i: usize = 0;
    while i < segs.len()
        invariant
            i <= segs.len(),
            vista_segmentos(segs@) == segmentos(texto@),
            objetivo == partes_interpoladas(texto@, con_newline),
            r@.len() == i,
            forall|j: int| 0 <= j < i ==> #[trigger] r@[j]@ == objetivo[j],
        decreases segs.len() - i,
    {
        proof {
            assert(vista_segmentos(segs@)[i as int] == (segs@[i as int].0, segs@[i as int].1@));
        }
        let parte = clasificar_segmento(segs[i].0, segs[i].1.as_str());
        r.push(parte);
        i = i + 1;
    }
    if con_newline {
        r.push(ParteInterpolada::FinDeLinea);
    }
    proof {
        assert(r@.map_values(|p: ParteInterpolada| p@) =~= objetivo);
    }
    r
}

/// How an integer is widened to 64 bits before it is passed to `printf`.
#[derive(Clone, Copy, Debug, PartialEq, Eq, Structural)]
pub enum Extension {
    /// Filled with zero bits.
    Cero,
    /// Filled with copies of the sign bit.
    Signo,
    /// Already 64 bits wide.
    Ninguna,
}

/// How `imprimir` and `imprimir_linea` print their argument.
#[derive(Debug, PartialEq)]
pub enum PlanImpresion {
    /// A text literal with placeholders, printed segment by segment.
    Interpolada(String),
    /// A `Texto` value: its characters, through `puts` for a line, else `printf("%s")`.
    Texto,
    /// An integer, widened as said and printed with `printf` and this format.
    Entero(String, Extension),
    /// A boolean, printed as `verdadero` or `falso`.
    Booleano,
    /// A float, printed with `printf` and this format.
    Flotante(String),
    /// Any other value, passed on as a C string.
    Puntero,
}

/// The model of a [`PlanImpresion`].
pub enum SpecPlanImpresion {
    Interpolada(Seq<char>),
    Texto,
    Entero(Seq<char>, Extension),
    Booleano,
    Flotante(Seq<char>),
    Puntero,
}

impl View for PlanImpresion {
    type V = SpecPlanImpresion;

    open spec fn view(&self) -> SpecPlanImpresion {
        match self {
            PlanImpresion::Interpolada(t) => SpecPlanImpresion::Interpolada(t@),
            PlanImpresion::Texto => SpecPlanImpresion::Texto,
            PlanImpresion::Entero(f, e) => SpecPlanImpresion::Entero(f@, *e),
            PlanImpresion::Booleano => SpecPlanImpresion::Booleano,
            PlanImpresion::Flotante(f) => SpecPlanImpresion::Flotante(f@),
            PlanImpresion::Puntero => SpecPlanImpresion::Puntero,
        }
    }
}

/// The integer types, which `imprimir` prints as numbers.
pub open spec fn es_entero_impreso(t: SpecTipo) -> bool {
    ||| t is Entero8
    ||| t is Entero16
    ||| t is Entero32
    ||| t is Entero64
    ||| t is Natural8
    ||| t is Natural16
    ||| t is Natural32
    ||| t is Natural64
}

/// The `printf` format of an integer: `%lld` for the 64-bit types, else `%d`,
/// with a newline for `imprimir_linea`.
pub open spec fn formato_entero(t: SpecTipo, con_newline: bool) -> Seq<char> {
    if t is Entero64 || t is Natural64 {
        if con_newline {
            "%lld\n"@
        } else {
            "%lld"@
        }
    } else {
        if con_newline {
            "%d\n"@
        } else {
            "%d"@
        }
    }
}

/// How an integer of type `t` is widened to 64 bits: the signed types and
/// `Natural32` by their sign, `Natural8` and `Natural16` with zeros.
pub open spec fn extension_entero(t: SpecTipo) -> Extension {
    match t {
        SpecTipo::Entero8 | SpecTipo::Entero16 | SpecTipo::Entero32 | SpecTipo::Natural32 => Extension::Signo,
        SpecTipo::Natural8 | SpecTipo::Natural16 => Extension::Cero,
        _ => Extension::Ninguna,
    }
}

/// The text of the first argument when it is a text literal holding a `{`.
pub open spec fn texto_interpolado(argumentos: Seq<SpecExpresion>) -> Option<Seq<char>> {
    match argumentos[0] {
        SpecExpresion::Literal(SpecLiteral::Palabra(t, _)) => if t.contains('{') {
            Some(t)
        } else {
            None
        },
        _ => None,
    }
}

/// How `imprimir` (or, with `con_newline`, `imprimir_linea`) prints its first
/// argument, whose type is `t`.
pub open spec fn plan_de_impresion(
    argumentos: Seq<SpecExpresion>,
    t: SpecTipo,
    con_newline: bool,
) -> SpecPlanImpresion {
    match texto_interpolado(argumentos) {
        Some(texto) => SpecPlanImpresion::Interpolada(texto),
        None => if t is Texto {
            SpecPlanImpresion::Texto
        } else if es_entero_impreso(t) {
            SpecPlanImpresion::Entero(formato_entero(t, con_newline), extension_entero(t))
        } else if t is Booleano {
            SpecPlanImpresion::Booleano
        } else if t is Flotante32 || t is Flotante64 {
            SpecPlanImpresion::Flotante(
                if con_newline {
                    "%.17g\n"@
                } else {
                    "%.17g"@
                },
            )
        } else {
            SpecPlanImpresion::Puntero
        },
    }
}

/// Decides how `imprimir` (or, with `con_newline`, `imprimir_linea`) prints
/// its first argument, whose type is `tipo_arg`.
pub fn plan_imprimir(argumentos: &Vec<Expresion>, tipo_arg: &Tipo, con_newline: bool) -> (r: PlanImpresion)
    requires
        argumentos.len() > 0,
    ensures
        r@ == plan_de_impresion(vista_expresiones(argumentos@), tipo_arg@, con_newline),
{
    proof {
        lema_vista_expresiones(argumentos@);
    }
    if let Expresion::Literal(Literal::Palabra(texto, _)) = &argumentos[0] {
        let k = buscar_caracter(texto.as_str(), 0, '{');
        proof {
            assert(texto@.subrange(0, texto@.len() as int) =~= texto@);
            lema_contiene_primera(texto@, '{');
        }
        if k < texto.unicode_len() {
            return PlanImpresion::Interpolada(String::from_str(texto.as_str()));
        }
    }
    match tipo_arg {
        Tipo::Texto => PlanImpresion::Texto,
        Tipo::Entero8 | Tipo::Entero16 | Tipo::Entero32 | Tipo::Entero64 | Tipo::Natural8 | Tipo::Natural16
        | Tipo::Natural32 | Tipo::Natural64 => {
            let formato = match tipo_arg {
                Tipo::Entero64 | Tipo::Natural64 => if con_newline {
                    String::from_str("%lld\n")
                } else {
                    String::from_str("%lld")
                },
                _ => if con_newline {
                    String::from_str("%d\n")
                } else {
                    String::from_str("%d")
                },
            };
            let extension = match tipo_arg {
                Tipo::Entero8 | Tipo::Entero16 | Tipo::Entero32 | Tipo::Natural32 => Extension::Signo,
                Tipo::Natural8 | Tipo::Natural16 => Extension::Cero,
                _ => Extension::Ninguna,
            };
            PlanImpresion::Entero(formato, extension)
        },
        Tipo::Booleano => PlanImpresion::Booleano,
        Tipo::Flotante32 | Tipo::Flotante64 => {
            if con_newline {
                PlanImpresion::Flotante(String::from_str("%.17g\n"))
            } else {
                PlanImpresion::Flotante(String::from_str("%.17g"))
            }
        },
        _ => PlanImpresion::Puntero,
    }
}

/// The `printf` format of a variable named by a placeholder, by its type
/// (aliases already resolved).
pub open spec fn formato_de_variable(t: SpecTipo) -> Seq<char> {
    match t {
        SpecTipo::Entero8 | SpecTipo::Entero16 | SpecTipo::Entero32 => "%d\0"@,
        SpecTipo::Entero64 => "%lld\0"@,
        SpecTipo::Natural8 | SpecTipo::Natural16 | SpecTipo::Natural32 => "%u\0"@,
        SpecTipo::Natural64 => "%llu\0"@,
        SpecTipo::Flotante32 | SpecTipo::Flotante64 => "%.17g\0"@,
        SpecTipo::Booleano => "%d\0"@,
        SpecTipo::Caracter => "%c\0"@,
        _ => "%s\0"@,
    }
}

/// The `printf` format of a variable named by a placeholder, whose type
/// (aliases already resolved) is `tipo`.
pub fn formato_variable_interpolada(tipo: &Tipo) -> (r: String)
    ensures
        r@ == formato_de_variable(tipo@),
{
    match tipo {
        Tipo::Entero8 | Tipo::Entero16 | Tipo::Entero32 => String::from_str("%d\0"),
        Tipo::Entero64 => String::from_str("%lld\0"),
        Tipo::Natural8 | Tipo::Natural16 | Tipo::Natural32 => String::from_str("%u\0"),
        Tipo::Natural64 => String::from_str("%llu\0"),
        Tipo::Flotante32 | Tipo::Flotante64 => String::from_str("%.17g\0"),
        Tipo::Booleano => String::from_str("%d\0"),
        Tipo::Caracter => String::from_str("%c\0"),
        _ => String::from_str("%s\0"),
    }
}

/// The `printf` format of a field read by a placeholder `base.campo`, by the
/// field's type (aliases already resolved).
pub open spec fn formato_de_valor(t: SpecTipo) -> Seq<char> {
    match t {
        SpecTipo::Entero8 | SpecTipo::Caracter | SpecTipo::Entero16 | SpecTipo::Entero32 => "%d\0"@,
        SpecTipo::Entero64 => "%lld\0"@,
        SpecTipo::Natural8 | SpecTipo::Natural16 | SpecTipo::Natural32 | SpecTipo::Booleano => "%u\0"@,
        SpecTipo::Natural64 => "%llu\0"@,
        SpecTipo::Flotante32 | SpecTipo::Flotante64 => "%f\0"@,
        _ => "%s\0"@,
    }
}

/// The `printf` format of a field read by a placeholder `base.campo`, whose
/// type (aliases already resolved) is `tipo`.
pub fn formato_valor_interpolado(tipo: &Tipo) -> (r: String)
    ensures
        r@ == formato_de_valor(tipo@),
{
    match tipo {
        Tipo::Entero8 | Tipo::Caracter | Tipo::Entero16 | Tipo::Entero32 => String::from_str("%d\0"),
        Tipo::Entero64 => String::from_str("%lld\0"),
        Tipo::Natural8 | Tipo::Natural16 | Tipo::Natural32 | Tipo::Booleano => String::from_str("%u\0"),
        Tipo::Natural64 => String::from_str("%llu\0"),
        Tipo::Flotante32 | Tipo::Flotante64 => String::from_str("%f\0"),
        _ => String::from_str("%s\0"),
    }
}

/// How a value printed for a placeholder becomes the 64-bit argument of `printf`.
#[derive(Clone, Copy, Debug, PartialEq, Eq, Structural)]
pub enum Conversion {
    /// An integer, widened to 64 bits as said.
    Extender(Extension),
    /// A 32-bit float, promoted to 64 bits and passed as its bit pattern.
    FlotantePromovido,
    /// A 64-bit float, passed as its bit pattern.
    FlotanteBits,
    /// A text: the pointer to its characters, read from its descriptor.
    Caracteres,
    /// A 64-bit value, passed as it is.
    Directa,
}

/// How many bits are read from the slot of a variable named by a placeholder,
/// and how they become the argument of `printf`, by the variable's type
/// (aliases resolved).
pub open spec fn carga_de_variable(t: SpecTipo) -> (u32, Conversion) {
    match t {
        SpecTipo::Entero8 => (8, Conversion::Extender(Extension::Signo)),
        SpecTipo::Entero16 => (16, Conversion::Extender(Extension::Signo)),
        SpecTipo::Entero32 => (32, Conversion::Extender(Extension::Signo)),
        SpecTipo::Natural8 | SpecTipo::Booleano | SpecTipo::Caracter => (8, Conversion::Extender(Extension::Cero)),
        SpecTipo::Natural16 => (16, Conversion::Extender(Extension::Cero)),
        SpecTipo::Natural32 => (32, Conversion::Extender(Extension::Cero)),
        SpecTipo::Flotante32 => (32, Conversion::FlotantePromovido),
        SpecTipo::Flotante64 => (64, Conversion::FlotanteBits),
        SpecTipo::Texto => (64, Conversion::Caracteres),
        _ => (64, Conversion::Directa),
    }
}

/// How a variable named by a placeholder, of type `tipo` (aliases resolved),
/// is read and passed to `printf`: the bits read from its slot and their conversion.
pub fn carga_variable_interpolada(tipo: &Tipo) -> (r: (u32, Conversion))
    ensures
        r == carga_de_variable(tipo@),
{
    match tipo {
        Tipo::Entero8 => (8, Conversion::Extender(Extension::Signo)),
        Tipo::Entero16 => (16, Conversion::Extender(Extension::Signo)),
        Tipo::Entero32 => (32, Conversion::Extender(Extension::Signo)),
        Tipo::Natural8 | Tipo::Booleano | Tipo::Caracter => (8, Conversion::Extender(Extension::Cero)),
        Tipo::Natural16 => (16, Conversion::Extender(Extension::Cero)),
        Tipo::Natural32 => (32, Conversion::Extender(Extension::Cero)),
        Tipo::Flotante32 => (32, Conversion::FlotantePromovido),
        Tipo::Flotante64 => (64, Conversion::FlotanteBits),
        Tipo::Texto => (64, Conversion::Caracteres),
        _ => (64, Conversion::Directa),
    }
}

/// How a field read by a placeholder `base.campo` is passed to `printf`, by
/// the field's type (aliases resolved).
pub open spec fn conversion_de_valor(t: SpecTipo) -> Conversion {
    match t {
        SpecTipo::Entero8 | SpecTipo::Caracter | SpecTipo::Entero16 | SpecTipo::Entero32 => Conversion::Extender(
            Extension::Signo,
        ),
        SpecTipo::Natural8 | SpecTipo::Natural16 | SpecTipo::Natural32 | SpecTipo::Booleano => Conversion::Extender(
            Extension::Cero,
        ),
        SpecTipo::Flotante32 => Conversion::FlotantePromovido,
        SpecTipo::Flotante64 => Conversion::FlotanteBits,
        SpecTipo::Texto => Conversion::Caracteres,
        _ => Conversion::Directa,
    }
}

/// How a field read by a placeholder `base.campo`, of type `tipo` (aliases
/// resolved), is passed to `printf`.
pub fn conversion_valor_interpolado(tipo: &Tipo) -> (r: Conversion)
    ensures
        r == conversion_de_valor(tipo@),
{
    match tipo {
        Tipo::Entero8 | Tipo::Caracter | Tipo::Entero16 | Tipo::Entero32 => Conversion::Extender(Extension::Signo),
        Tipo::Natural8 | Tipo::Natural16 | Tipo::Natural32 | Tipo::Booleano => Conversion::Extender(Extension::Cero),
        Tipo::Flotante32 => Conversion::FlotantePromovido,
        Tipo::Flotante64 => Conversion::FlotanteBits,
        Tipo::Texto => Conversion::Caracteres,
        _ => Conversion::Directa,
    }
}

} // verus!
