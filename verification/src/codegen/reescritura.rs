//! Rewritings that code generation applies before it emits anything: method
//! calls, indexing and `+` on texts become calls of built-in functions, and a
//! closure's parameters and captured variables are worked out.

use vstd::prelude::*;
use crate::ast::{
    span_de, vista_expresiones, vista_parametros_closure, Expresion, Llamada,
    OperadorBinario, Span, SpecExpresion, SpecLlamada, SpecTipo, Tipo,
};
use crate::clonar::{clonar_expresion, clonar_tipo};
use crate::codegen::expresiones::usa_variable;
use crate::codegen::{vista_pares, Codegen};
use crate::texto::mismo_texto;
use vstd::string::StringExecFns;

verus! {

/// A call of the built-in `funcion` with these arguments and no type arguments.
pub open spec fn llamada_a_builtin(funcion: Seq<char>, argumentos: Seq<SpecExpresion>, span: Span) -> SpecLlamada {
    SpecLlamada { funcion, tipo_args: Seq::empty(), argumentos, span }
}

/// The model of an optional call.
pub open spec fn vista_llamada_opt(o: Option<Llamada>) -> Option<SpecLlamada> {
    match o {
        Some(l) => Some(l@),
        None => None,
    }
}

/// The built-in that the method `nombre` of a value of type `t` stands for.
pub open spec fn builtin_de_metodo(t: SpecTipo, nombre: Seq<char>) -> Option<Seq<char>> {
    match t {
        SpecTipo::Texto => if nombre == "agregar"@ {
            Some("texto_agregar"@)
        } else if nombre == "tam"@ {
            Some("texto_longitud"@)
        } else if nombre == "liberar"@ {
            Some("texto_liberar"@)
        } else if nombre == "obtener"@ {
            Some("texto_obtener_byte"@)
        } else if nombre == "concatenar"@ {
            Some("texto_concatenar"@)
        } else if nombre == "subtexto"@ {
            Some("texto_subtexto"@)
        } else if nombre == "comparar"@ {
            Some("texto_comparar"@)
        } else {
            None
        },
        SpecTipo::Vector(_) => if nombre == "agregar"@ {
            Some("vector_agregar"@)
        } else if nombre == "tam"@ {
            Some("vector_longitud"@)
        } else if nombre == "obtener"@ {
            Some("vector_obtener"@)
        } else if nombre == "liberar"@ {
            Some("vector_liberar"@)
        } else {
            None
        },
        SpecTipo::Diccionario(_, _) => if nombre == "insertar"@ {
            Some("diccionario_insertar"@)
        } else if nombre == "obtener"@ {
            Some("diccionario_obtener"@)
        } else if nombre == "existe"@ {
            Some("diccionario_existe"@)
        } else if nombre == "eliminar"@ {
            Some("diccionario_eliminar"@)
        } else if nombre == "tam"@ {
            Some("diccionario_longitud"@)
        } else if nombre == "liberar"@ {
            Some("diccionario_liberar"@)
        } else {
            None
        },
        SpecTipo::Conjunto(_) => if nombre == "insertar"@ {
            Some("conjunto_insertar"@)
        } else if nombre == "contiene"@ {
            Some("conjunto_contiene"@)
        } else if nombre == "eliminar"@ {
            Some("conjunto_eliminar"@)
        } else if nombre == "tam"@ {
            Some("conjunto_longitud"@)
        } else if nombre == "liberar"@ {
            Some("conjunto_liberar"@)
        } else {
            None
        },
        _ => None,
    }
}

/// The built-in that the method `nombre` of a value of type `tipo` stands for.
pub fn builtin_para_metodo(tipo: &Tipo, nombre: &str) -> (r: Option<String>)
    ensures
        match r {
            Some(f) => builtin_de_metodo(tipo@, nombre@) == Some(f@),
            None => builtin_de_metodo(tipo@, nombre@) is None,
        },
{
    match tipo {
        Tipo::Texto => if mismo_texto(nombre, "agregar") {
            Some(String::from_str("texto_agregar"))
        } else if mismo_texto(nombre, "tam") {
            Some(String::from_str("texto_longitud"))
        } else if mismo_texto(nombre, "liberar") {
            Some(String::from_str("texto_liberar"))
        } else if mismo_texto(nombre, "obtener") {
            Some(String::from_str("texto_obtener_byte"))
        } else if mismo_texto(nombre, "concatenar") {
            Some(String::from_str("texto_concatenar"))
        } else if mismo_texto(nombre, "subtexto") {
            Some(String::from_str("texto_subtexto"))
        } else if mismo_texto(nombre, "comparar") {
            Some(String::from_str("texto_comparar"))
        } else {
            None
        },
        Tipo::Vector(_) => if mismo_texto(nombre, "agregar") {
            Some(String::from_str("vector_agregar"))
        } else if mismo_texto(nombre, "tam") {
            Some(String::from_str("vector_longitud"))
        } else if mismo_texto(nombre, "obtener") {
            Some(String::from_str("vector_obtener"))
        } else if mismo_texto(nombre, "liberar") {
            Some(String::from_str("vector_liberar"))
        } else {
            None
        },
        Tipo::Diccionario(_, _) => if mismo_texto(nombre, "insertar") {
            Some(String::from_str("diccionario_insertar"))
        } else if mismo_texto(nombre, "obtener") {
            Some(String::from_str("diccionario_obtener"))
        } else if mismo_texto(nombre, "existe") {
            Some(String::from_str("diccionario_existe"))
        } else if mismo_texto(nombre, "eliminar") {
            Some(String::from_str("diccionario_eliminar"))
        } else if mismo_texto(nombre, "tam") {
            Some(String::from_str("diccionario_longitud"))
        } else if mismo_texto(nombre, "liberar") {
            Some(String::from_str("diccionario_liberar"))
        } else {
            None
        },
        Tipo::Conjunto(_) => if mismo_texto(nombre, "insertar") {
            Some(String::from_str("conjunto_insertar"))
        } else if mismo_texto(nombre, "contiene") {
            Some(String::from_str("conjunto_contiene"))
        } else if mismo_texto(nombre, "eliminar") {
            Some(String::from_str("conjunto_eliminar"))
        } else if mismo_texto(nombre, "tam") {
            Some(String::from_str("conjunto_longitud"))
        } else if mismo_texto(nombre, "liberar") {
            Some(String::from_str("conjunto_liberar"))
        } else {
            None
        },
        _ => None,
    }
}

/// A copy of `resto` with a copy of `primero` in front.
fn anteponer(primero: &Expresion, resto: &Vec<Expresion>) -> (r: Vec<Expresion>)
    ensures
        vista_expresiones(r@) == seq![primero@] + vista_expresiones(resto@),
{
    let mut r: Vec<Expresion> = Vec::new();
    let c = clonar_expresion(primero);
    proof {
        assert(r@.push(c).drop_last() =~= r@);
    }
    r.push(c);
    let mut i: usize = 0;
    proof {
        assert(resto@.take(0) =~= Seq::<Expresion>::empty());
        assert(seq![primero@] + vista_expresiones(Seq::<Expresion>::empty()) =~= seq![primero@]);
    }
    while i < resto.len()
        invariant
            i <= resto.len(),
            vista_expresiones(r@) == seq![primero@] + vista_expresiones(resto@.take(i as int)),
        decreases resto.len() - i,
    {
        let e = clonar_expresion(&resto[i]);
        proof {
            assert(r@.push(e).drop_last() =~= r@);
            assert(resto@.take(i + 1).drop_last() =~= resto@.take(i as int));
            assert(resto@.take(i + 1).last() == resto@[i as int]);
            assert(seq![primero@] + vista_expresiones(resto@.take(i as int)).push(e@) =~= (seq![primero@]
                + vista_expresiones(resto@.take(i as int))).push(e@));
        }
        r.push(e);
        i = i + 1;
    }
    proof {
        assert(resto@.take(resto.len() as int) =~= resto@);
    }
    r
}

/// The call that the method call `receptor.nombre(args)` becomes when the
/// receiver's type `t` has such a built-in: the receiver goes first, and the
/// call takes the receiver's position.
pub open spec fn llamada_de_metodo_spec(
    t: SpecTipo,
    receptor: SpecExpresion,
    nombre: Seq<char>,
    args: Seq<SpecExpresion>,
) -> Option<SpecLlamada> {
    match builtin_de_metodo(t, nombre) {
        Some(f) => Some(llamada_a_builtin(f, seq![receptor] + args, span_de(receptor))),
        None => None,
    }
}

/// Rewrites the method call `receptor.nombre(args)`, whose receiver has type
/// `tipo_receptor`, into a call of the built-in it stands for; `None` when the
/// method is none of them (it is then a bit method of an integer).
pub fn llamada_de_metodo(
    tipo_receptor: &Tipo,
    receptor: &Expresion,
    nombre: &str,
    args: &Vec<Expresion>,
) -> (r: Option<Llamada>)
    ensures
        vista_llamada_opt(r) == llamada_de_metodo_spec(
            tipo_receptor@,
            receptor@,
            nombre@,
            vista_expresiones(args@),
        ),
{
    match builtin_para_metodo(tipo_receptor, nombre) {
        Some(funcion) => {
            let argumentos = anteponer(receptor, args);
            Some(Llamada { funcion, tipo_args: Vec::new(), argumentos, span: receptor.span() })
        },
        None => None,
    }
}

/// The call that indexing `array[indice]` becomes when the array has type
/// `t`: a slice `texto[a..b]` takes a substring, an index into a text reads a
/// byte, an index into a vector reads an element.
pub open spec fn llamada_de_indexacion(
    t: SpecTipo,
    array: SpecExpresion,
    indice: SpecExpresion,
    span: Span,
) -> Option<SpecLlamada> {
    match t {
        SpecTipo::Texto => match indice {
            SpecExpresion::Rango(inicio, fin, _, _) => Some(
                llamada_a_builtin("texto_subtexto"@, seq![array, *inicio, *fin], span),
            ),
            _ => Some(llamada_a_builtin("texto_obtener_byte"@, seq![array, indice], span)),
        },
        SpecTipo::Vector(_) => Some(llamada_a_builtin("vector_obtener"@, seq![array, indice], span)),
        _ => None,
    }
}

/// A vector of the copies of two expressions.
fn par_de_expresiones(a: &Expresion, b: &Expresion) -> (r: Vec<Expresion>)
    ensures
        vista_expresiones(r@) == seq![a@, b@],
{
    let mut r: Vec<Expresion> = Vec::new();
    let x = clonar_expresion(a);
    let y = clonar_expresion(b);
    r.push(x);
    proof {
        assert(r@.drop_last() =~= Seq::<Expresion>::empty());
        assert(vista_expresiones(Seq::<Expresion>::empty()) == Seq::<SpecExpresion>::empty());
        assert(r@.last() == x);
        assert(vista_expresiones(r@) =~= seq![a@]);
    }
    let ghost antes = r@;
    r.push(y);
    proof {
        assert(r@.drop_last() =~= antes);
        assert(vista_expresiones(r@) =~= seq![a@, b@]);
    }
    r
}

/// Rewrites `array[indice]` (at `span`), where `array` has type `tipo_array`,
/// into the built-in call it stands for; `None` for a fixed-size array, which
/// is read in place.
pub fn llamada_de_acceso_array(tipo_array: &Tipo, array: &Expresion, indice: &Expresion, span: Span) -> (r:
    Option<Llamada>)
    ensures
        vista_llamada_opt(r) == llamada_de_indexacion(tipo_array@, array@, indice@, span),
{
    match tipo_array {
        Tipo::Texto => {
            if let Expresion::Rango(inicio, fin, _, _) = indice {
                let mut argumentos = par_de_expresiones(array, inicio);
                let f = clonar_expresion(fin);
                let ghost antes = argumentos@;
                argumentos.push(f);
                proof {
                    assert(argumentos@.drop_last() =~= antes);
                    assert(vista_expresiones(argumentos@) =~= seq![array@, (**inicio)@, (**fin)@]);
                }
                Some(
                    Llamada {
                        funcion: String::from_str("texto_subtexto"),
                        tipo_args: Vec::new(),
                        argumentos,
                        span,
                    },
                )
            } else {
                Some(
                    Llamada {
                        funcion: String::from_str("texto_obtener_byte"),
                        tipo_args: Vec::new(),
                        argumentos: par_de_expresiones(array, indice),
                        span,
                    },
                )
            }
        },
        Tipo::Vector(_) => Some(
            Llamada {
                funcion: String::from_str("vector_obtener"),
                tipo_args: Vec::new(),
                argumentos: par_de_expresiones(array, indice),
                span,
            },
        ),
        _ => None,
    }
}

/// The call that `izq op der` becomes: `+` on a text on the left concatenates.
pub open spec fn llamada_de_binaria(
    t_izq: SpecTipo,
    izq: SpecExpresion,
    op: OperadorBinario,
    der: SpecExpresion,
    span: Span,
) -> Option<SpecLlamada> {
    if op == OperadorBinario::Suma && t_izq is Texto {
        Some(llamada_a_builtin("texto_concatenar"@, seq![izq, der], span))
    } else {
        None
    }
}

/// Rewrites `izq op der` (at `span`), whose left side has type `tipo_izq`,
/// into a concatenation of texts when it is one; `None` for arithmetic.
pub fn llamada_de_binaria_exec(
    tipo_izq: &Tipo,
    izq: &Expresion,
    op: OperadorBinario,
    der: &Expresion,
    span: Span,
) -> (r: Option<Llamada>)
    ensures
        vista_llamada_opt(r) == llamada_de_binaria(tipo_izq@, izq@, op, der@, span),
{
    match (op, tipo_izq) {
        (OperadorBinario::Suma, Tipo::Texto) => Some(
            Llamada {
                funcion: String::from_str("texto_concatenar"),
                tipo_args: Vec::new(),
                argumentos: par_de_expresiones(izq, der),
                span,
            },
        ),
        _ => None,
    }
}

/// Each parameter of a closure with its type: `Entero32` where none is written.
pub open spec fn tipos_de_parametros(ps: Seq<(Seq<char>, Option<SpecTipo>)>) -> Seq<(Seq<char>, SpecTipo)> {
    ps.map_values(
        |p: (Seq<char>, Option<SpecTipo>)|
            (
                p.0,
                match p.1 {
                    Some(t) => t,
                    None => SpecTipo::Entero32,
                },
            ),
    )
}

/// The parameters of a closure with their types, `Entero32` where none is written.
pub fn parametros_de_closure(params: &Vec<(String, Option<Tipo>)>) -> (r: Vec<(String, Tipo)>)
    ensures
        vista_pares(r@) == tipos_de_parametros(vista_parametros_closure(params@)),
{
    let ghost objetivo = tipos_de_parametros(vista_parametros_closure(params@));
    let mut r: Vec<(String, Tipo)> = Vec::new();
    let mut i: usize = 0;
    while i < params.len()
        invariant
            i <= params.len(),
            objetivo == tipos_de_parametros(vista_parametros_closure(params@)),
            r@.len() == i,
            forall|j: int| 0 <= j < i ==> #[trigger] vista_pares(r@)[j] == objetivo[j],
        decreases params.len() - i,
    {
        let nombre = String::from_str(params[i].0.as_str());
        let tipo = match &params[i].1 {
            Some(t) => clonar_tipo(t),
            None => Tipo::Entero32,
        };
        proof {
            assert(vista_parametros_closure(params@)[i as int] == (params@[i as int].0@, crate::ast::vista_tipo_opt(
                params@[i as int].1,
            )));
            assert(objetivo[i as int] == (nombre@, tipo@));
        }
        let ghost antes = r@;
        r.push((nombre, tipo));
        proof {
            assert forall|j: int| 0 <= j < i + 1 implies #[trigger] vista_pares(r@)[j] == objetivo[j] by {
                assert(vista_pares(r@)[j] == (r@[j].0@, r@[j].1@));
                if j < i {
                    assert(r@[j] == antes[j]);
                    assert(vista_pares(antes)[j] == (antes[j].0@, antes[j].1@));
                }
            }
        }
        i = i + 1;
    }
    proof {
        assert(vista_pares(r@) =~= objetivo);
    }
    r
}

/// Whether `n` names one of the parameters `ps`.
pub open spec fn es_parametro(ps: Seq<(Seq<char>, SpecTipo)>, n: Seq<char>) -> bool {
    exists|i: int| 0 <= i < ps.len() && ps[i].0 == n
}

/// The variables in scope that a closure with parameters `ps` and body
/// `cuerpo` captures: those, in order, that are no parameter and that the
/// body reads.
pub open spec fn capturas(
    ps: Seq<(Seq<char>, SpecTipo)>,
    variables: Seq<(Seq<char>, SpecTipo)>,
    cuerpo: SpecExpresion,
) -> Seq<(Seq<char>, SpecTipo)>
    decreases variables.len(),
{
    if variables.len() == 0 {
        Seq::empty()
    } else {
        let previas = capturas(ps, variables.drop_last(), cuerpo);
        let v = variables.last();
        if !es_parametro(ps, v.0) && usa_variable(cuerpo, v.0) {
            previas.push(v)
        } else {
            previas
        }
    }
}

/// Whether one of the parameters is named `n`.
fn nombra_parametro(ps: &Vec<(String, Tipo)>, n: &str) -> (r: bool)
    ensures
        r == es_parametro(vista_pares(ps@), n@),
{
    let ghost v = vista_pares(ps@);
    let mut i: usize = 0;
    while i < ps.len()
        invariant
            i <= ps.len(),
            v == vista_pares(ps@),
            forall|j: int| 0 <= j < i ==> v[j].0 != n@,
        decreases ps.len() - i,
    {
        assert(v[i as int] == (ps@[i as int].0@, ps@[i as int].1@));
        if mismo_texto(ps[i].0.as_str(), n) {
            return true;
        }
        i = i + 1;
    }
    false
}

impl Codegen {
    /// The variables in scope (`variables`, each with its type) that a closure
    /// with parameters `params` and body `cuerpo` captures.
    pub fn capturas_de_closure(
        &self,
        params: &Vec<(String, Tipo)>,
        variables: &Vec<(String, Tipo)>,
        cuerpo: &Expresion,
    ) -> (r: Vec<(String, Tipo)>)
        ensures
            vista_pares(r@) == capturas(vista_pares(params@), vista_pares(variables@), cuerpo@),
    {
        let ghost ps = vista_pares(params@);
        let ghost vs = vista_pares(variables@);
        let mut r: Vec<(String, Tipo)> = Vec::new();
        let mut i: usize = 0;
        proof {
            assert(vs.take(0) =~= Seq::<(Seq<char>, SpecTipo)>::empty());
        }
        while i < variables.len()
            invariant
                i <= variables.len(),
                ps == vista_pares(params@),
                vs == vista_pares(variables@),
                vista_pares(r@) == capturas(ps, vs.take(i as int), cuerpo@),
            decreases variables.len() - i,
        {
            let nombre = variables[i].0.as_str();
            proof {
                assert(vs.take(i + 1).drop_last() =~= vs.take(i as int));
                assert(vs.take(i + 1).last() == vs[i as int]);
                assert(vs[i as int] == (variables@[i as int].0@, variables@[i as int].1@));
            }
            if !nombra_parametro(params, nombre) && self.expresion_usa_variable(cuerpo, nombre) {
                let par = (String::from_str(nombre), clonar_tipo(&variables[i].1));
                proof {
                    assert(vista_pares(r@.push(par)) =~= vista_pares(r@).push((par.0@, par.1@)));
                }
                r.push(par);
            }
            i = i + 1;
        }
        proof {
            assert(vs.take(variables.len() as int) =~= vs);
        }
        r
    }
}

/// The bit operation that a method of an integer stands for.
#[derive(Clone, Copy, Debug, PartialEq, Eq, Structural)]
pub enum OperacionBits {
    /// `x.poner_bit(n)`: `x | (1 << n)`.
    PonerBit,
    /// `x.quitar_bit(n)`: `x & !(1 << n)`.
    QuitarBit,
    /// `x.alternar_bit(n)`: `x ^ (1 << n)`.
    AlternarBit,
    /// `x.extraer_bits(desde, cantidad)`: `(x >> desde) & ((1 << cantidad) - 1)`.
    ExtraerBits,
    /// `x.ceros_izquierda()`: the number of leading zero bits.
    CerosIzquierda,
    /// `x.unos()`: the number of one bits.
    Unos,
    /// Any other name: the value of the receiver itself.
    Ninguna,
}

/// The bit operation of the integer method `nombre`.
pub open spec fn operacion_de_bits(nombre: Seq<char>) -> OperacionBits {
    if nombre == "poner_bit"@ {
        OperacionBits::PonerBit
    } else if nombre == "quitar_bit"@ {
        OperacionBits::QuitarBit
    } else if nombre == "alternar_bit"@ {
        OperacionBits::AlternarBit
    } else if nombre == "extraer_bits"@ {
        OperacionBits::ExtraerBits
    } else if nombre == "ceros_izquierda"@ {
        OperacionBits::CerosIzquierda
    } else if nombre == "unos"@ {
        OperacionBits::Unos
    } else {
        OperacionBits::Ninguna
    }
}

/// The bit operation that the integer method `nombre` stands for.
pub fn operacion_bits(nombre: &str) -> (r: OperacionBits)
    ensures
        r == operacion_de_bits(nombre@),
{
    if mismo_texto(nombre, "poner_bit") {
        OperacionBits::PonerBit
    } else if mismo_texto(nombre, "quitar_bit") {
        OperacionBits::QuitarBit
    } else if mismo_texto(nombre, "alternar_bit") {
        OperacionBits::AlternarBit
    } else if mismo_texto(nombre, "extraer_bits") {
        OperacionBits::ExtraerBits
    } else if mismo_texto(nombre, "ceros_izquierda") {
        OperacionBits::CerosIzquierda
    } else if mismo_texto(nombre, "unos") {
        OperacionBits::Unos
    } else {
        OperacionBits::Ninguna
    }
}

/// The prefix of the built-ins of a receiver type.
pub open spec fn prefijo_de_receptor(t: SpecTipo) -> Seq<char> {
    match t {
        SpecTipo::Texto => "texto_"@,
        SpecTipo::Vector(_) => "vector_"@,
        SpecTipo::Diccionario(_, _) => "diccionario_"@,
        _ => "conjunto_"@,
    }
}

/// A method call on a text, vector, dictionary or set becomes the built-in
/// named by the receiver's prefix followed by the method's own name; the
/// exceptions are `tam`, which becomes the prefix followed by `longitud`, and
/// `obtener` on a text, which reads a byte (`texto_obtener_byte`). So two
/// different methods of one receiver type never become the same built-in.
pub proof fn ley_metodo_nombra_su_builtin(t: SpecTipo, m: Seq<char>, m2: Seq<char>)
    ensures
        builtin_de_metodo(t, m) matches Some(f) ==> {
            ||| f == prefijo_de_receptor(t) + m
            ||| m == "tam"@ && f == prefijo_de_receptor(t) + "longitud"@
            ||| t is Texto && m == "obtener"@ && f == prefijo_de_receptor(t) + "obtener_byte"@
        },
        builtin_de_metodo(t, m) is Some && builtin_de_metodo(t, m) == builtin_de_metodo(t, m2) ==> m == m2,
{
    lema_forma_del_builtin(t, m);
    lema_forma_del_builtin(t, m2);
    reveal_strlit("longitud");
    reveal_strlit("obtener_byte");
    reveal_strlit("tam");
    reveal_strlit("obtener");
    reveal_strlit("agregar");
    reveal_strlit("tam");
    reveal_strlit("liberar");
    reveal_strlit("obtener");
    reveal_strlit("concatenar");
    reveal_strlit("subtexto");
    reveal_strlit("comparar");
    reveal_strlit("insertar");
    reveal_strlit("existe");
    reveal_strlit("eliminar");
    reveal_strlit("contiene");
    assert("agregar"@ != "longitud"@) by {
        assert("agregar"@.len() != "longitud"@.len());
    }
    assert("tam"@ != "longitud"@) by {
        assert("tam"@.len() != "longitud"@.len());
    }
    assert("liberar"@ != "longitud"@) by {
        assert("liberar"@.len() != "longitud"@.len());
    }
    assert("obtener"@ != "longitud"@) by {
        assert("obtener"@.len() != "longitud"@.len());
    }
    assert("concatenar"@ != "longitud"@) by {
        assert("concatenar"@.len() != "longitud"@.len());
    }
    assert("subtexto"@ != "longitud"@) by {
        assert("subtexto"@[0] != "longitud"@[0]);
    }
    assert("comparar"@ != "longitud"@) by {
        assert("comparar"@[0] != "longitud"@[0]);
    }
    assert("insertar"@ != "longitud"@) by {
        assert("insertar"@[0] != "longitud"@[0]);
    }
    assert("existe"@ != "longitud"@) by {
        assert("existe"@.len() != "longitud"@.len());
    }
    assert("eliminar"@ != "longitud"@) by {
        assert("eliminar"@[0] != "longitud"@[0]);
    }
    assert("contiene"@ != "longitud"@) by {
        assert("contiene"@[0] != "longitud"@[0]);
    }
    assert("agregar"@ != "obtener_byte"@) by {
        assert("agregar"@.len() != "obtener_byte"@.len());
    }
    assert("tam"@ != "obtener_byte"@) by {
        assert("tam"@.len() != "obtener_byte"@.len());
    }
    assert("liberar"@ != "obtener_byte"@) by {
        assert("liberar"@.len() != "obtener_byte"@.len());
    }
    assert("obtener"@ != "obtener_byte"@) by {
        assert("obtener"@.len() != "obtener_byte"@.len());
    }
    assert("concatenar"@ != "obtener_byte"@) by {
        assert("concatenar"@.len() != "obtener_byte"@.len());
    }
    assert("subtexto"@ != "obtener_byte"@) by {
        assert("subtexto"@.len() != "obtener_byte"@.len());
    }
    assert("comparar"@ != "obtener_byte"@) by {
        assert("comparar"@.len() != "obtener_byte"@.len());
    }
    assert("insertar"@ != "obtener_byte"@) by {
        assert("insertar"@.len() != "obtener_byte"@.len());
    }
    assert("existe"@ != "obtener_byte"@) by {
        assert("existe"@.len() != "obtener_byte"@.len());
    }
    assert("eliminar"@ != "obtener_byte"@) by {
        assert("eliminar"@.len() != "obtener_byte"@.len());
    }
    assert("contiene"@ != "obtener_byte"@) by {
        assert("contiene"@.len() != "obtener_byte"@.len());
    }
    if builtin_de_metodo(t, m) is Some && builtin_de_metodo(t, m) == builtin_de_metodo(t, m2) {
        let f = builtin_de_metodo(t, m)->Some_0;
        let p = prefijo_de_receptor(t);
        let n = p.len() as int;
        let x = f.subrange(n, f.len() as int);
        assert((p + m).subrange(n, (p + m).len() as int) =~= m);
        assert((p + m2).subrange(n, (p + m2).len() as int) =~= m2);
        assert((p + "longitud"@).subrange(n, (p + "longitud"@).len() as int) =~= "longitud"@);
        assert((p + "obtener_byte"@).subrange(n, (p + "obtener_byte"@).len() as int) =~= "obtener_byte"@);
        assert(builtin_de_metodo(t, "longitud"@) is None);
        assert(builtin_de_metodo(t, "obtener_byte"@) is None);
    }
}

/// The form of the built-in of a method.
proof fn lema_forma_del_builtin(t: SpecTipo, m: Seq<char>)
    ensures
        builtin_de_metodo(t, m) matches Some(f) ==> {
            ||| f == prefijo_de_receptor(t) + m
            ||| m == "tam"@ && f == prefijo_de_receptor(t) + "longitud"@
            ||| t is Texto && m == "obtener"@ && f == prefijo_de_receptor(t) + "obtener_byte"@
        },
{
    reveal_strlit("agregar");
    reveal_strlit("comparar");
    reveal_strlit("concatenar");
    reveal_strlit("conjunto_");
    reveal_strlit("conjunto_contiene");
    reveal_strlit("conjunto_eliminar");
    reveal_strlit("conjunto_insertar");
    reveal_strlit("conjunto_liberar");
    reveal_strlit("conjunto_longitud");
    reveal_strlit("contiene");
    reveal_strlit("diccionario_");
    reveal_strlit("diccionario_eliminar");
    reveal_strlit("diccionario_existe");
    reveal_strlit("diccionario_insertar");
    reveal_strlit("diccionario_liberar");
    reveal_strlit("diccionario_longitud");
    reveal_strlit("diccionario_obtener");
    reveal_strlit("eliminar");
    reveal_strlit("existe");
    reveal_strlit("insertar");
    reveal_strlit("liberar");
    reveal_strlit("longitud");
    reveal_strlit("obtener");
    reveal_strlit("obtener_byte");
    reveal_strlit("subtexto");
    reveal_strlit("tam");
    reveal_strlit("texto_");
    reveal_strlit("texto_agregar");
    reveal_strlit("texto_comparar");
    reveal_strlit("texto_concatenar");
    reveal_strlit("texto_liberar");
    reveal_strlit("texto_longitud");
    reveal_strlit("texto_obtener_byte");
    reveal_strlit("texto_subtexto");
    reveal_strlit("vector_");
    reveal_strlit("vector_agregar");
    reveal_strlit("vector_liberar");
    reveal_strlit("vector_longitud");
    reveal_strlit("vector_obtener");
    assert("texto_agregar"@ =~= "texto_"@ + "agregar"@);
    assert("texto_longitud"@ =~= "texto_"@ + "longitud"@);
    assert("texto_liberar"@ =~= "texto_"@ + "liberar"@);
    assert("texto_obtener_byte"@ =~= "texto_"@ + "obtener_byte"@);
    assert("texto_concatenar"@ =~= "texto_"@ + "concatenar"@);
    assert("texto_subtexto"@ =~= "texto_"@ + "subtexto"@);
    assert("texto_comparar"@ =~= "texto_"@ + "comparar"@);
    assert("vector_agregar"@ =~= "vector_"@ + "agregar"@);
    assert("vector_longitud"@ =~= "vector_"@ + "longitud"@);
    assert("vector_obtener"@ =~= "vector_"@ + "obtener"@);
    assert("vector_liberar"@ =~= "vector_"@ + "liberar"@);
    assert("diccionario_insertar"@ =~= "diccionario_"@ + "insertar"@);
    assert("diccionario_obtener"@ =~= "diccionario_"@ + "obtener"@);
    assert("diccionario_existe"@ =~= "diccionario_"@ + "existe"@);
    assert("diccionario_eliminar"@ =~= "diccionario_"@ + "eliminar"@);
    assert("diccionario_longitud"@ =~= "diccionario_"@ + "longitud"@);
    assert("diccionario_liberar"@ =~= "diccionario_"@ + "liberar"@);
    assert("conjunto_insertar"@ =~= "conjunto_"@ + "insertar"@);
    assert("conjunto_contiene"@ =~= "conjunto_"@ + "contiene"@);
    assert("conjunto_eliminar"@ =~= "conjunto_"@ + "eliminar"@);
    assert("conjunto_longitud"@ =~= "conjunto_"@ + "longitud"@);
    assert("conjunto_liberar"@ =~= "conjunto_"@ + "liberar"@);
}


} // verus!
