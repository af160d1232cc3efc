//! # Typed arguments
//!
//! `funcion principal(args: MiStruct) -> Entero32`: the compiler generates the
//! parsing of `--etiqueta valor` pairs from the command line, the conversion of
//! each value to the type of its field, the check of required fields and an
//! automatic `--ayuda`.
//!
//! The schema is written with the articles of the struct's fields:
//! - `el campo: Tipo`  → required (an error if `--campo` is missing)
//! - `un campo: Tipo`  → optional (the type's default if missing)
//! - `la campo: Tipo`  → required and immutable
//! - `los campo: Tipo` → positional varargs (not supported yet)
//!
//! `preprocesar` rewrites `principal(args: MiStruct)` into a `principal()`
//! without parameters whose body starts with a synthesized prologue that
//! builds `args` from `argumentos()`, followed by the original body.

use vstd::prelude::*;
use crate::ast::{
    span_vacio, Articulo, Asignacion, Bloque, BucleMientras, Condicional, DeclaracionVariable,
    Expresion, Literal, Llamada, Lugar, ModoVerbal, OperadorBinario, Sentencia, Span, SpecAsignacion,
    SpecBloque, SpecBucleMientras, SpecCondicional, SpecDeclaracionVariable, SpecExpresion,
    SpecLiteral, SpecLlamada, SpecLugar, SpecSentencia, SpecTipo, Tipo, vista_sentencias,
    vista_expresiones, vista_tipos, vista_sentencia, vista_inicializaciones, Campo, Declaracion, FuncionDecl, Programa, SpecCampo, SpecDeclaracion, SpecFuncionDecl, SpecPrograma,
};
use crate::texto::{decimal, lema_decimal_digitos, mismo_texto, unir, unir3, usize_a_texto};
use crate::clonar::clonar_tipo;
use vstd::string::StringExecFns;

verus! {

// ───────────────────────────── models of the builders ─────────────────────────────

/// The field types that typed argument parsing supports.
pub open spec fn es_soportado(t: SpecTipo) -> bool {
    match t {
        SpecTipo::Texto | SpecTipo::Entero32 | SpecTipo::Entero64 | SpecTipo::Natural32
        | SpecTipo::Natural64 | SpecTipo::Flotante64 | SpecTipo::Booleano => true,
        _ => false,
    }
}

pub open spec fn spec_llamada(f: Seq<char>, args: Seq<SpecExpresion>) -> SpecExpresion {
    SpecExpresion::Llamada(SpecLlamada { funcion: f, tipo_args: Seq::empty(), argumentos: args, span: span_vacio() })
}

pub open spec fn spec_llamada_tipada(f: Seq<char>, t: SpecTipo, args: Seq<SpecExpresion>) -> SpecExpresion {
    SpecExpresion::Llamada(SpecLlamada { funcion: f, tipo_args: seq![t], argumentos: args, span: span_vacio() })
}

/// The conversion of the text `val` to a value of type `t`.
pub open spec fn spec_conversion(t: SpecTipo, val: SpecExpresion) -> SpecExpresion {
    match t {
        SpecTipo::Entero32 => spec_llamada("como_entero32"@, seq![spec_llamada("texto_a_entero"@, seq![val])]),
        SpecTipo::Entero64 => spec_llamada("texto_a_entero"@, seq![val]),
        SpecTipo::Natural32 => spec_llamada("como_entero32"@, seq![spec_llamada("texto_a_natural"@, seq![val])]),
        SpecTipo::Natural64 => spec_llamada("texto_a_natural"@, seq![val]),
        SpecTipo::Flotante64 => spec_llamada("texto_a_flotante"@, seq![val]),
        SpecTipo::Booleano => spec_llamada("texto_a_booleano"@, seq![val]),
        _ => val,
    }
}

/// The value that a field of type `t` takes when its flag is not given.
pub open spec fn spec_default(t: SpecTipo) -> SpecExpresion {
    match t {
        SpecTipo::Entero8 | SpecTipo::Entero16 | SpecTipo::Entero32 | SpecTipo::Entero64
        | SpecTipo::Natural8 | SpecTipo::Natural16 | SpecTipo::Natural32 | SpecTipo::Natural64 => {
            SpecExpresion::Literal(SpecLiteral::Entero(0, span_vacio()))
        },
        SpecTipo::Flotante32 | SpecTipo::Flotante64 => SpecExpresion::Literal(SpecLiteral::Flotante(0, span_vacio())),
        SpecTipo::Booleano => SpecExpresion::Literal(SpecLiteral::Booleano(false, span_vacio())),
        _ => spec_llamada("texto_nuevo"@, Seq::empty()),
    }
}

pub open spec fn spec_palabra(s: Seq<char>) -> SpecExpresion {
    SpecExpresion::Literal(SpecLiteral::Palabra(s, span_vacio()))
}

pub open spec fn spec_binaria(a: SpecExpresion, op: OperadorBinario, b: SpecExpresion) -> SpecExpresion {
    SpecExpresion::Binaria(Box::new(a), op, Box::new(b), span_vacio())
}

pub open spec fn spec_id(n: Seq<char>) -> SpecExpresion {
    SpecExpresion::Identificador(n, span_vacio())
}

pub open spec fn spec_entero(n: i64) -> SpecExpresion {
    SpecExpresion::Literal(SpecLiteral::Entero(n, span_vacio()))
}

pub open spec fn spec_booleano(b: bool) -> SpecExpresion {
    SpecExpresion::Literal(SpecLiteral::Booleano(b, span_vacio()))
}

pub open spec fn spec_declarar(art: Articulo, nombre: Seq<char>, tipo: SpecTipo, valor: SpecExpresion) -> SpecSentencia {
    SpecSentencia::DeclaracionVariable(
        SpecDeclaracionVariable { articulo: art, nombre, tipo: Some(tipo), valor, span: span_vacio() },
    )
}

pub open spec fn spec_asignar(nombre: Seq<char>, valor: SpecExpresion) -> SpecSentencia {
    SpecSentencia::Asignacion(SpecAsignacion { lugar: SpecLugar::Identificador(nombre), valor, span: span_vacio() })
}

pub open spec fn spec_retornar(e: SpecExpresion) -> SpecSentencia {
    SpecSentencia::Retornar(Some(e), span_vacio())
}

pub open spec fn spec_bloque(s: Seq<SpecSentencia>) -> SpecBloque {
    SpecBloque { sentencias: s, span: span_vacio() }
}

pub open spec fn spec_si(cond: SpecExpresion, cuerpo: Seq<SpecSentencia>) -> SpecSentencia {
    SpecSentencia::Condicional(
        SpecCondicional {
            condicion: cond,
            bloque_entonces: spec_bloque(cuerpo),
            bloque_sino: None,
            modo: ModoVerbal::Indicativo,
            span: span_vacio(),
        },
    )
}

pub open spec fn spec_mientras(cond: SpecExpresion, cuerpo: Seq<SpecSentencia>) -> SpecSentencia {
    SpecSentencia::BucleMientras(
        SpecBucleMientras { condicion: cond, bloque: spec_bloque(cuerpo), span: span_vacio() },
    )
}

// ───────────────────────────── builders ─────────────────────────────

/// Whether typed argument parsing supports fields of type `tipo`.
pub fn soportado(tipo: &Tipo) -> (r: bool)
    ensures
        r == es_soportado(tipo@),
{
    match tipo {
        Tipo::Texto | Tipo::Entero32 | Tipo::Entero64 | Tipo::Natural32 | Tipo::Natural64
        | Tipo::Flotante64 | Tipo::Booleano => true,
        _ => false,
    }
}

/// The call `f(args...)`.
pub fn llamada(f: &str, args: Vec<Expresion>) -> (r: Expresion)
    ensures
        r@ == spec_llamada(f@, vista_expresiones(args@)),
{
    let r = Expresion::Llamada(Llamada { funcion: String::from_str(f), tipo_args: Vec::new(), argumentos: args, span: Span::vacio() });
    assert(vista_tipos(Seq::<Tipo>::empty()) == Seq::<SpecTipo>::empty());
    r
}

/// The call `f<tipo>(args...)`.
pub fn llamada_tipada(f: &str, tipo: Tipo, args: Vec<Expresion>) -> (r: Expresion)
    ensures
        r@ == spec_llamada_tipada(f@, tipo@, vista_expresiones(args@)),
{
    let mut tipo_args: Vec<Tipo> = Vec::new();
    tipo_args.push(tipo);
    proof {
        assert(tipo_args@.drop_last() =~= Seq::<Tipo>::empty());
        assert(vista_tipos(Seq::<Tipo>::empty()) == Seq::<SpecTipo>::empty());
        assert(vista_tipos(tipo_args@) =~= seq![tipo@]);
    }
    Expresion::Llamada(Llamada { funcion: String::from_str(f), tipo_args, argumentos: args, span: Span::vacio() })
}

/// The call list with the single argument `a`.
fn uno(a: Expresion) -> (r: Vec<Expresion>)
    ensures
        vista_expresiones(r@) == seq![a@],
{
    let mut v: Vec<Expresion> = Vec::new();
    v.push(a);
    proof {
        assert(v@.drop_last() =~= Seq::<Expresion>::empty());
        assert(vista_expresiones(Seq::<Expresion>::empty()) == Seq::<SpecExpresion>::empty());
        assert(vista_expresiones(v@) =~= seq![a@]);
    }
    v
}

/// The call list with the two arguments `a`, `b`.
fn dos(a: Expresion, b: Expresion) -> (r: Vec<Expresion>)
    ensures
        vista_expresiones(r@) == seq![a@, b@],
{
    let mut v: Vec<Expresion> = Vec::new();
    v.push(a);
    proof {
        assert(v@.drop_last() =~= Seq::<Expresion>::empty());
        assert(vista_expresiones(Seq::<Expresion>::empty()) == Seq::<SpecExpresion>::empty());
        assert(vista_expresiones(v@) =~= seq![a@]);
    }
    let ghost v1 = v@;
    v.push(b);
    proof {
        assert(v@.drop_last() =~= v1);
        assert(vista_expresiones(v@) =~= seq![a@, b@]);
    }
    v
}

/// The conversion of the text `val` to a value of type `tipo`.
pub fn expr_conversion(tipo: &Tipo, val: Expresion) -> (r: Expresion)
    ensures
        r@ == spec_conversion(tipo@, val@),
{
    match tipo {
        Tipo::Entero32 => llamada("como_entero32", uno(llamada("texto_a_entero", uno(val)))),
        Tipo::Entero64 => llamada("texto_a_entero", uno(val)),
        Tipo::Natural32 => llamada("como_entero32", uno(llamada("texto_a_natural", uno(val)))),
        Tipo::Natural64 => llamada("texto_a_natural", uno(val)),
        Tipo::Flotante64 => llamada("texto_a_flotante", uno(val)),
        Tipo::Booleano => llamada("texto_a_booleano", uno(val)),
        _ => val,
    }
}

/// The value that a field of type `tipo` takes when its flag is absent.
pub fn default_tipo(tipo: &Tipo) -> (r: Expresion)
    ensures
        r@ == spec_default(tipo@),
{
    let sp = Span::vacio();
    match tipo {
        Tipo::Entero8 | Tipo::Entero16 | Tipo::Entero32 | Tipo::Entero64 | Tipo::Natural8
        | Tipo::Natural16 | Tipo::Natural32 | Tipo::Natural64 => Expresion::Literal(Literal::Entero(0, sp)),
        Tipo::Flotante32 | Tipo::Flotante64 => Expresion::Literal(Literal::Flotante(0, sp)),
        Tipo::Booleano => Expresion::Literal(Literal::Booleano(false, sp)),
        _ => {
            let r = Expresion::Llamada(
                Llamada { funcion: String::from_str("texto_nuevo"), tipo_args: Vec::new(), argumentos: Vec::new(), span: sp },
            );
            assert(vista_expresiones(Seq::<Expresion>::empty()) == Seq::<SpecExpresion>::empty());
            assert(vista_tipos(Seq::<Tipo>::empty()) == Seq::<SpecTipo>::empty());
            r
        },
    }
}

/// A text literal.
pub fn palabra(s: &str) -> (r: Expresion)
    ensures
        r@ == spec_palabra(s@),
{
    Expresion::Literal(Literal::Palabra(String::from_str(s), Span::vacio()))
}

/// The expression `a == b`.
pub fn igual(a: Expresion, b: Expresion) -> (r: Expresion)
    ensures
        r@ == spec_binaria(a@, OperadorBinario::Igual, b@),
{
    Expresion::Binaria(Box::new(a), OperadorBinario::Igual, Box::new(b), Span::vacio())
}

/// The expression `a != b`.
pub fn distinto(a: Expresion, b: Expresion) -> (r: Expresion)
    ensures
        r@ == spec_binaria(a@, OperadorBinario::Distinto, b@),
{
    Expresion::Binaria(Box::new(a), OperadorBinario::Distinto, Box::new(b), Span::vacio())
}

/// The expression `a < b`.
pub fn menor(a: Expresion, b: Expresion) -> (r: Expresion)
    ensures
        r@ == spec_binaria(a@, OperadorBinario::Menor, b@),
{
    Expresion::Binaria(Box::new(a), OperadorBinario::Menor, Box::new(b), Span::vacio())
}

/// The expression `a + b`.
pub fn suma(a: Expresion, b: Expresion) -> (r: Expresion)
    ensures
        r@ == spec_binaria(a@, OperadorBinario::Suma, b@),
{
    Expresion::Binaria(Box::new(a), OperadorBinario::Suma, Box::new(b), Span::vacio())
}

/// The identifier `n`.
pub fn id(n: &str) -> (r: Expresion)
    ensures
        r@ == spec_id(n@),
{
    Expresion::Identificador(String::from_str(n), Span::vacio())
}

/// The declaration `art nombre: tipo = valor`.
pub fn declarar(art: Articulo, nombre: &str, tipo: Tipo, valor: Expresion) -> (r: Sentencia)
    ensures
        r@ == spec_declarar(art, nombre@, tipo@, valor@),
{
    Sentencia::DeclaracionVariable(
        DeclaracionVariable { articulo: art, nombre: String::from_str(nombre), tipo: Some(tipo), valor, span: Span::vacio() },
    )
}

/// The assignment `nombre = valor`.
pub fn asignar(nombre: &str, valor: Expresion) -> (r: Sentencia)
    ensures
        r@ == spec_asignar(nombre@, valor@),
{
    Sentencia::Asignacion(Asignacion { lugar: Lugar::Identificador(String::from_str(nombre)), valor, span: Span::vacio() })
}

/// An expression used as a statement.
pub fn expr_sent(expr: Expresion) -> (r: Sentencia)
    ensures
        r@ == SpecSentencia::Expresion(expr@),
{
    Sentencia::Expresion(expr)
}

/// The statement `retornar expr`.
pub fn retornar(expr: Expresion) -> (r: Sentencia)
    ensures
        r@ == spec_retornar(expr@),
{
    Sentencia::Retornar(Some(expr), Span::vacio())
}

/// A block of statements.
pub fn bloque(sentencias: Vec<Sentencia>) -> (r: Bloque)
    ensures
        r@ == spec_bloque(vista_sentencias(sentencias@)),
{
    Bloque { sentencias, span: Span::vacio() }
}

/// The statement `si cond { cuerpo }`.
pub fn si(cond: Expresion, cuerpo: Vec<Sentencia>) -> (r: Sentencia)
    ensures
        r@ == spec_si(cond@, vista_sentencias(cuerpo@)),
{
    Sentencia::Condicional(
        Condicional {
            condicion: cond,
            bloque_entonces: bloque(cuerpo),
            bloque_sino: None,
            modo: ModoVerbal::Indicativo,
            span: Span::vacio(),
        },
    )
}

/// The statement `mientras cond { cuerpo }`.
pub fn mientras(cond: Expresion, cuerpo: Vec<Sentencia>) -> (r: Sentencia)
    ensures
        r@ == spec_mientras(cond@, vista_sentencias(cuerpo@)),
{
    Sentencia::BucleMientras(BucleMientras { condicion: cond, bloque: bloque(cuerpo), span: Span::vacio() })
}

// ───────────────────────────── model of the rewriting ─────────────────────────────

/// Fields with `el` or `la` are required.
pub open spec fn es_requerido(a: Articulo) -> bool {
    a == Articulo::El || a == Articulo::La
}

pub open spec fn vista_campos(s: Seq<Campo>) -> Seq<SpecCampo> {
    s.map_values(|c: Campo| c@)
}

/// `prefijo` followed by the decimal rendering of `i`.
pub open spec fn con_indice(prefijo: Seq<char>, i: int) -> Seq<char> {
    prefijo + decimal(i as nat)
}

/// One variable `__campo_i` per field, holding the default of its type.
pub open spec fn decl_campos(cs: Seq<SpecCampo>, k: nat) -> Seq<SpecSentencia>
    decreases k,
{
    if k == 0 {
        Seq::empty()
    } else {
        let i = k - 1;
        decl_campos(cs, (k - 1) as nat).push(
            spec_declarar(Articulo::El, con_indice("__campo_"@, i), cs[i].tipo, spec_default(cs[i].tipo)),
        )
    }
}

/// One flag `__visto_i = falso` per required field.
pub open spec fn decl_banderas(cs: Seq<SpecCampo>, k: nat) -> Seq<SpecSentencia>
    decreases k,
{
    if k == 0 {
        Seq::empty()
    } else {
        let i = k - 1;
        let previas = decl_banderas(cs, (k - 1) as nat);
        if es_requerido(cs[i].articulo) {
            previas.push(spec_declarar(Articulo::El, con_indice("__visto_"@, i), SpecTipo::Booleano, spec_booleano(false)))
        } else {
            previas
        }
    }
}

/// One label `__etiqueta_i = texto_desde("--nombre")` per field.
pub open spec fn decl_etiquetas(cs: Seq<SpecCampo>, k: nat) -> Seq<SpecSentencia>
    decreases k,
{
    if k == 0 {
        Seq::empty()
    } else {
        let i = k - 1;
        decl_etiquetas(cs, (k - 1) as nat).push(
            spec_declarar(
                Articulo::El,
                con_indice("__etiqueta_"@, i),
                SpecTipo::Texto,
                spec_llamada("texto_desde"@, seq![spec_palabra("--"@ + cs[i].nombre)]),
            ),
        )
    }
}

/// The usage line's list of flags: ` [--nombre <valor>]` per field.
pub open spec fn uso_campos(cs: Seq<SpecCampo>, k: nat) -> Seq<char>
    decreases k,
{
    if k == 0 {
        Seq::empty()
    } else {
        uso_campos(cs, (k - 1) as nat) + " [--"@ + cs[k - 1].nombre + " <valor>]"@
    }
}

/// The usage line of a program.
pub open spec fn spec_uso(nombre_funcion: Seq<char>, cs: Seq<SpecCampo>) -> Seq<char> {
    "Uso: "@ + nombre_funcion + uso_campos(cs, cs.len())
}

/// What `--ayuda` and `-h` do: print the usage twice and return 0.
pub open spec fn spec_cuerpo_ayuda(uso: Seq<char>) -> Seq<SpecSentencia> {
    seq![
        SpecSentencia::Expresion(spec_llamada("imprimir_linea"@, seq![spec_palabra(uso)])),
        SpecSentencia::Expresion(spec_llamada("imprimir_linea"@, seq![spec_palabra("Ayuda: "@ + uso + "."@)])),
        spec_retornar(spec_entero(0)),
    ]
}

/// The condition `texto_comparar(__arg, etiqueta) == 0`.
pub open spec fn spec_coincide(etiqueta: Seq<char>) -> SpecExpresion {
    spec_binaria(
        spec_llamada("texto_comparar"@, seq![spec_id("__arg"@), spec_id(etiqueta)]),
        OperadorBinario::Igual,
        spec_entero(0),
    )
}

/// `__i + 1`.
pub open spec fn spec_siguiente() -> SpecExpresion {
    spec_binaria(spec_id("__i"@), OperadorBinario::Suma, spec_entero(1))
}

/// What the loop does when the current argument is the flag of field `i`:
/// read the next argument, convert it, mark the field seen and skip it.
pub open spec fn spec_cuerpo_campo(c: SpecCampo, i: int) -> Seq<SpecSentencia> {
    seq![
        spec_declarar(
            Articulo::El,
            "__val"@,
            SpecTipo::Texto,
            spec_llamada_tipada("vector_obtener"@, SpecTipo::Texto, seq![spec_id("__argv"@), spec_siguiente()]),
        ),
        spec_asignar(con_indice("__campo_"@, i), spec_conversion(c.tipo, spec_id("__val"@))),
    ] + (if es_requerido(c.articulo) {
        seq![spec_asignar(con_indice("__visto_"@, i), spec_booleano(true))]
    } else {
        Seq::empty()
    }) + seq![spec_asignar("__i"@, spec_siguiente())]
}

/// One `si` per field inside the loop.
pub open spec fn asig_campos(cs: Seq<SpecCampo>, k: nat) -> Seq<SpecSentencia>
    decreases k,
{
    if k == 0 {
        Seq::empty()
    } else {
        let i = k - 1;
        asig_campos(cs, (k - 1) as nat).push(spec_si(spec_coincide(con_indice("__etiqueta_"@, i)), spec_cuerpo_campo(cs[i], i)))
    }
}

/// The body of the loop over the command-line arguments.
pub open spec fn spec_cuerpo_bucle(nombre_funcion: Seq<char>, cs: Seq<SpecCampo>) -> Seq<SpecSentencia> {
    let ayuda = spec_cuerpo_ayuda(spec_uso(nombre_funcion, cs));
    seq![
        spec_declarar(
            Articulo::El,
            "__arg"@,
            SpecTipo::Texto,
            spec_llamada_tipada("vector_obtener"@, SpecTipo::Texto, seq![spec_id("__argv"@), spec_id("__i"@)]),
        ),
        spec_si(spec_coincide("__etiqueta_ayuda"@), ayuda),
        spec_si(spec_coincide("__etiqueta_h"@), ayuda),
    ] + asig_campos(cs, cs.len()) + seq![spec_asignar("__i"@, spec_siguiente())]
}

/// The check of the required field `cs[i]`: if its label was not seen,
/// report it and return 1.
pub open spec fn validacion_requerido(cs: Seq<SpecCampo>, i: int) -> SpecSentencia {
    spec_si(
        spec_binaria(spec_id(con_indice("__visto_"@, i)), OperadorBinario::Igual, spec_booleano(false)),
        seq![
            SpecSentencia::Expresion(
                spec_llamada("imprimir_linea"@, seq![spec_palabra("Falta el argumento requerido: --"@ + cs[i].nombre)]),
            ),
            spec_retornar(spec_entero(1)),
        ],
    )
}

/// One check per required field: if it was not seen, report it and return 1.
pub open spec fn validaciones(cs: Seq<SpecCampo>, k: nat) -> Seq<SpecSentencia>
    decreases k,
{
    if k == 0 {
        Seq::empty()
    } else {
        let i = k - 1;
        let previas = validaciones(cs, (k - 1) as nat);
        if es_requerido(cs[i].articulo) {
            previas.push(validacion_requerido(cs, i))
        } else {
            previas
        }
    }
}

/// One `texto_liberar(__etiqueta_i)` per field.
pub open spec fn liberaciones(cs: Seq<SpecCampo>, k: nat) -> Seq<SpecSentencia>
    decreases k,
{
    if k == 0 {
        Seq::empty()
    } else {
        liberaciones(cs, (k - 1) as nat).push(
            SpecSentencia::Expresion(spec_llamada("texto_liberar"@, seq![spec_id(con_indice("__etiqueta_"@, k - 1))])),
        )
    }
}

/// The initializer `nombre: __campo_i` of each field.
pub open spec fn inicializaciones(cs: Seq<SpecCampo>, k: nat) -> Seq<(Seq<char>, SpecExpresion)>
    decreases k,
{
    if k == 0 {
        Seq::empty()
    } else {
        inicializaciones(cs, (k - 1) as nat).push((cs[k - 1].nombre, spec_id(con_indice("__campo_"@, k - 1))))
    }
}

/// The prologue synthesized for `principal(param: nombre_struct)`.
pub open spec fn prologo(
    nombre_funcion: Seq<char>,
    nombre_struct: Seq<char>,
    cs: Seq<SpecCampo>,
    param_articulo: Articulo,
    param_nombre: Seq<char>,
) -> Seq<SpecSentencia> {
    let n = cs.len();
    seq![
        spec_declarar(
            Articulo::Los,
            "__argv"@,
            SpecTipo::Vector(Box::new(SpecTipo::Texto)),
            spec_llamada("argumentos"@, Seq::empty()),
        ),
        spec_declarar(
            Articulo::El,
            "__n"@,
            SpecTipo::Entero32,
            spec_llamada_tipada("vector_longitud"@, SpecTipo::Texto, seq![spec_id("__argv"@)]),
        ),
    ] + decl_campos(cs, n) + decl_banderas(cs, n) + decl_etiquetas(cs, n) + seq![
        spec_declarar(
            Articulo::El,
            "__etiqueta_ayuda"@,
            SpecTipo::Texto,
            spec_llamada("texto_desde"@, seq![spec_palabra("--ayuda"@)]),
        ),
        spec_declarar(
            Articulo::El,
            "__etiqueta_h"@,
            SpecTipo::Texto,
            spec_llamada("texto_desde"@, seq![spec_palabra("-h"@)]),
        ),
        spec_declarar(Articulo::El, "__i"@, SpecTipo::Entero32, spec_entero(1)),
        spec_mientras(
            spec_binaria(spec_id("__i"@), OperadorBinario::Menor, spec_id("__n"@)),
            spec_cuerpo_bucle(nombre_funcion, cs),
        ),
    ] + validaciones(cs, n) + liberaciones(cs, n) + seq![
        SpecSentencia::Expresion(spec_llamada("texto_liberar"@, seq![spec_id("__etiqueta_ayuda"@)])),
        SpecSentencia::Expresion(spec_llamada("texto_liberar"@, seq![spec_id("__etiqueta_h"@)])),
        spec_declarar(
            param_articulo,
            param_nombre,
            SpecTipo::Nombre(nombre_struct),
            SpecExpresion::InicializacionStruct(nombre_struct, inicializaciones(cs, n), span_vacio()),
        ),
    ]
}

/// A function declaration named `principal`.
pub open spec fn es_principal(d: SpecDeclaracion) -> bool {
    d matches SpecDeclaracion::Funcion(f) && f.nombre == "principal"@
}

/// The first declaration named `principal` at or after `desde`.
pub open spec fn indice_principal(ds: Seq<SpecDeclaracion>, desde: int) -> Option<int>
    decreases ds.len() - desde,
{
    if desde < 0 || desde >= ds.len() {
        None
    } else if es_principal(ds[desde]) {
        Some(desde)
    } else {
        indice_principal(ds, desde + 1)
    }
}

/// A struct declaration named `n`.
pub open spec fn es_struct_llamado(d: SpecDeclaracion, n: Seq<char>) -> bool {
    d matches SpecDeclaracion::Estructural(s) && s.nombre == n
}

/// The first struct declaration named `n` at or after `desde`.
pub open spec fn indice_struct(ds: Seq<SpecDeclaracion>, n: Seq<char>, desde: int) -> Option<int>
    decreases ds.len() - desde,
{
    if desde < 0 || desde >= ds.len() {
        None
    } else if es_struct_llamado(ds[desde], n) {
        Some(desde)
    } else {
        indice_struct(ds, n, desde + 1)
    }
}

/// A field that typed parsing cannot fill: varargs (`los`, `las`) or an unsupported type.
pub open spec fn campo_invalido(c: SpecCampo) -> bool {
    c.articulo == Articulo::Los || c.articulo == Articulo::Las || !es_soportado(c.tipo)
}

/// The first invalid field at or after `desde`.
pub open spec fn indice_invalido(cs: Seq<SpecCampo>, desde: int) -> Option<int>
    decreases cs.len() - desde,
{
    if desde < 0 || desde >= cs.len() {
        None
    } else if campo_invalido(cs[desde]) {
        Some(desde)
    } else {
        indice_invalido(cs, desde + 1)
    }
}

/// The error reported for the invalid field `c` of the struct `nombre_struct`.
pub open spec fn mensaje_campo_invalido(c: SpecCampo, nombre_struct: Seq<char>) -> Seq<char> {
    if c.articulo == Articulo::Los || c.articulo == Articulo::Las {
        "Campo '"@ + c.nombre + "' del struct de argumentos '"@ + nombre_struct + "' usa artículo '"@ + (if c.articulo
            == Articulo::Los {
            "los"@
        } else {
            "las"@
        })
            + "': los argumentos posicionales (varargs) aún no están soportados en la Fase 2 — usa 'el' (requerido), 'un' (opcional) o 'la' (inmutable)"@
    } else {
        "Campo '"@ + c.nombre + "' del struct de argumentos '"@ + nombre_struct
            + "' tiene tipo no soportado para parseo tipado (soportados: Texto, Entero32, Entero64, Natural32, Natural64, Flotante64, Booleano)"@
    }
}

/// `principal` rewritten: no parameters, the prologue before its body.
pub open spec fn principal_reescrita(f: SpecFuncionDecl, nombre_struct: Seq<char>, cs: Seq<SpecCampo>) -> SpecFuncionDecl {
    SpecFuncionDecl {
        parametros: Seq::empty(),
        cuerpo: spec_bloque(
            prologo(f.nombre, nombre_struct, cs, f.parametros[0].articulo, f.parametros[0].nombre) + f.cuerpo.sentencias,
        ),
        ..f
    }
}

/// What `preprocesar` makes of a program: `Err` with the message when the
/// struct of `principal`'s parameter has an invalid field; otherwise the
/// program with `principal` rewritten, or unchanged when `principal` does not
/// take exactly one parameter whose type names a declared struct.
pub open spec fn preprocesado(p: SpecPrograma) -> Result<SpecPrograma, Seq<char>> {
    let ds = p.declaraciones;
    match indice_principal(ds, 0) {
        None => Ok(p),
        Some(idx) => match ds[idx] {
            SpecDeclaracion::Funcion(f) => if f.parametros.len() != 1 {
                Ok(p)
            } else {
                match f.parametros[0].tipo {
                    SpecTipo::Nombre(ns) => match indice_struct(ds, ns, 0) {
                        None => Ok(p),
                        Some(j) => match ds[j] {
                            SpecDeclaracion::Estructural(sd) => match indice_invalido(sd.campos, 0) {
                                Some(k) => Err(mensaje_campo_invalido(sd.campos[k], ns)),
                                None => Ok(
                                    SpecPrograma {
                                        declaraciones: ds.update(
                                            idx,
                                            SpecDeclaracion::Funcion(principal_reescrita(f, ns, sd.campos)),
                                        ),
                                    },
                                ),
                            },
                            _ => Ok(p),
                        },
                    },
                    _ => Ok(p),
                }
            },
            _ => Ok(p),
        },
    }
}

// ───────────────────────────── building the prologue ─────────────────────────────

proof fn lema_push(s: Seq<Sentencia>, x: Sentencia)
    ensures
        vista_sentencias(s.push(x)) == vista_sentencias(s).push(vista_sentencia(x)),
{
    assert(s.push(x).drop_last() =~= s);
}

proof fn lema_concat(a: Seq<Sentencia>, b: Seq<Sentencia>)
    ensures
        vista_sentencias(a + b) == vista_sentencias(a) + vista_sentencias(b),
    decreases b.len(),
{
    if b.len() == 0 {
        assert(a + b =~= a);
        assert(vista_sentencias(a) + vista_sentencias(b) =~= vista_sentencias(a));
    } else {
        lema_concat(a, b.drop_last());
        assert((a + b).drop_last() =~= a + b.drop_last());
        assert(vista_sentencias(a) + vista_sentencias(b) =~= (vista_sentencias(a) + vista_sentencias(b.drop_last())).push(
            vista_sentencia(b.last()),
        ));
    }
}

/// Appends `otra` to `v`.
fn extender(v: &mut Vec<Sentencia>, otra: Vec<Sentencia>)
    ensures
        vista_sentencias(final(v)@) == vista_sentencias(old(v)@) + vista_sentencias(otra@),
{
    let mut otra = otra;
    let ghost a = v@;
    let ghost b = otra@;
    v.append(&mut otra);
    proof {
        lema_concat(a, b);
    }
}

/// Adds `x` at the end of `v`.
fn agregar(v: &mut Vec<Sentencia>, x: Sentencia)
    ensures
        vista_sentencias(final(v)@) == vista_sentencias(old(v)@).push(x@),
{
    proof {
        lema_push(v@, x);
    }
    v.push(x);
}

/// `prefijo` followed by the decimal rendering of `i`.
fn nombre_indexado(prefijo: &str, i: usize) -> (r: String)
    ensures
        r@ == con_indice(prefijo@, i as int),
{
    let mut s = String::from_str(prefijo);
    s.append(usize_a_texto(i).as_str());
    s
}

fn declaraciones_campos(cs: &Vec<Campo>) -> (r: Vec<Sentencia>)
    ensures
        vista_sentencias(r@) == decl_campos(vista_campos(cs@), cs@.len()),
{
    let ghost v = vista_campos(cs@);
    let mut r: Vec<Sentencia> = Vec::new();
    let mut i: usize = 0;
    while i < cs.len()
        invariant
            i <= cs.len(),
            v == vista_campos(cs@),
            vista_sentencias(r@) == decl_campos(v, i as nat),
        decreases cs.len() - i,
    {
        let nombre = nombre_indexado("__campo_", i);
        let d = declarar(Articulo::El, nombre.as_str(), clonar_tipo(&cs[i].tipo), default_tipo(&cs[i].tipo));
        agregar(&mut r, d);
        i = i + 1;
    }
    r
}

fn declaraciones_banderas(cs: &Vec<Campo>) -> (r: Vec<Sentencia>)
    ensures
        vista_sentencias(r@) == decl_banderas(vista_campos(cs@), cs@.len()),
{
    let ghost v = vista_campos(cs@);
    let mut r: Vec<Sentencia> = Vec::new();
    let mut i: usize = 0;
    while i < cs.len()
        invariant
            i <= cs.len(),
            v == vista_campos(cs@),
            vista_sentencias(r@) == decl_banderas(v, i as nat),
        decreases cs.len() - i,
    {
        let art = cs[i].articulo;
        if art == Articulo::El || art == Articulo::La {
            let f = nombre_indexado("__visto_", i);
            let d = declarar(Articulo::El, f.as_str(), Tipo::Booleano, Expresion::Literal(Literal::Booleano(false, Span::vacio())));
            agregar(&mut r, d);
        }
        i = i + 1;
    }
    r
}

fn declaraciones_etiquetas(cs: &Vec<Campo>) -> (r: Vec<Sentencia>)
    ensures
        vista_sentencias(r@) == decl_etiquetas(vista_campos(cs@), cs@.len()),
{
    let ghost v = vista_campos(cs@);
    let mut r: Vec<Sentencia> = Vec::new();
    let mut i: usize = 0;
    while i < cs.len()
        invariant
            i <= cs.len(),
            v == vista_campos(cs@),
            vista_sentencias(r@) == decl_etiquetas(v, i as nat),
        decreases cs.len() - i,
    {
        let etiqueta = unir("--", cs[i].nombre.as_str());
        let nombre = nombre_indexado("__etiqueta_", i);
        let d = declarar(Articulo::El, nombre.as_str(), Tipo::Texto, llamada("texto_desde", uno(palabra(etiqueta.as_str()))));
        agregar(&mut r, d);
        i = i + 1;
    }
    r
}

fn texto_uso(nombre_funcion: &str, cs: &Vec<Campo>) -> (r: String)
    ensures
        r@ == spec_uso(nombre_funcion@, vista_campos(cs@)),
{
    let ghost v = vista_campos(cs@);
    let mut uso = String::from_str("Uso: ");
    uso.append(nombre_funcion);
    let mut i: usize = 0;
    while i < cs.len()
        invariant
            i <= cs.len(),
            v == vista_campos(cs@),
            uso@ == "Uso: "@ + nombre_funcion@ + uso_campos(v, i as nat),
        decreases cs.len() - i,
    {
        uso.append(" [--");
        uso.append(cs[i].nombre.as_str());
        uso.append(" <valor>]");
        i = i + 1;
    }
    uso
}

fn cuerpo_ayuda(uso: &str) -> (r: Vec<Sentencia>)
    ensures
        vista_sentencias(r@) == spec_cuerpo_ayuda(uso@),
{
    let mut r: Vec<Sentencia> = Vec::new();
    agregar(&mut r, expr_sent(llamada("imprimir_linea", uno(palabra(uso)))));
    let linea = unir3("Ayuda: ", uso, ".");
    agregar(&mut r, expr_sent(llamada("imprimir_linea", uno(palabra(linea.as_str())))));
    agregar(&mut r, retornar(Expresion::Literal(Literal::Entero(0, Span::vacio()))));
    assert(vista_sentencias(r@) =~= spec_cuerpo_ayuda(uso@));
    r
}

/// `texto_comparar(__arg, etiqueta) == 0`.
fn coincide(etiqueta: &str) -> (r: Expresion)
    ensures
        r@ == spec_coincide(etiqueta@),
{
    igual(llamada("texto_comparar", dos(id("__arg"), id(etiqueta))), Expresion::Literal(Literal::Entero(0, Span::vacio())))
}

/// `__i + 1`.
fn siguiente() -> (r: Expresion)
    ensures
        r@ == spec_siguiente(),
{
    suma(id("__i"), Expresion::Literal(Literal::Entero(1, Span::vacio())))
}

fn cuerpo_campo(c: &Campo, i: usize) -> (r: Vec<Sentencia>)
    ensures
        vista_sentencias(r@) == spec_cuerpo_campo(c@, i as int),
{
    let mut body: Vec<Sentencia> = Vec::new();
    agregar(
        &mut body,
        declarar(Articulo::El, "__val", Tipo::Texto, llamada_tipada("vector_obtener", Tipo::Texto, dos(id("__argv"), siguiente()))),
    );
    let campo = nombre_indexado("__campo_", i);
    agregar(&mut body, asignar(campo.as_str(), expr_conversion(&c.tipo, id("__val"))));
    let ghost dos_primeras = vista_sentencias(body@);
    if c.articulo == Articulo::El || c.articulo == Articulo::La {
        let f = nombre_indexado("__visto_", i);
        agregar(&mut body, asignar(f.as_str(), Expresion::Literal(Literal::Booleano(true, Span::vacio()))));
    }
    let ghost antes = vista_sentencias(body@);
    agregar(&mut body, asignar("__i", siguiente()));
    proof {
        let visto: Seq<SpecSentencia> = if es_requerido(c.articulo) {
            seq![spec_asignar(con_indice("__visto_"@, i as int), spec_booleano(true))]
        } else {
            Seq::empty()
        };
        assert(antes =~= dos_primeras + visto);
    }
    assert(vista_sentencias(body@) =~= spec_cuerpo_campo(c@, i as int));
    body
}

fn asignaciones_campos(cs: &Vec<Campo>) -> (r: Vec<Sentencia>)
    ensures
        vista_sentencias(r@) == asig_campos(vista_campos(cs@), cs@.len()),
{
    let ghost v = vista_campos(cs@);
    let mut r: Vec<Sentencia> = Vec::new();
    let mut i: usize = 0;
    while i < cs.len()
        invariant
            i <= cs.len(),
            v == vista_campos(cs@),
            vista_sentencias(r@) == asig_campos(v, i as nat),
        decreases cs.len() - i,
    {
        let etiqueta = nombre_indexado("__etiqueta_", i);
        let cond = coincide(etiqueta.as_str());
        let body = cuerpo_campo(&cs[i], i);
        agregar(&mut r, si(cond, body));
        i = i + 1;
    }
    r
}

fn cuerpo_bucle(nombre_funcion: &str, cs: &Vec<Campo>) -> (r: Vec<Sentencia>)
    ensures
        vista_sentencias(r@) == spec_cuerpo_bucle(nombre_funcion@, vista_campos(cs@)),
{
    let mut r: Vec<Sentencia> = Vec::new();
    agregar(
        &mut r,
        declarar(Articulo::El, "__arg", Tipo::Texto, llamada_tipada("vector_obtener", Tipo::Texto, dos(id("__argv"), id("__i")))),
    );
    let uso = texto_uso(nombre_funcion, cs);
    agregar(&mut r, si(coincide("__etiqueta_ayuda"), cuerpo_ayuda(uso.as_str())));
    agregar(&mut r, si(coincide("__etiqueta_h"), cuerpo_ayuda(uso.as_str())));
    let ghost tres = vista_sentencias(r@);
    extender(&mut r, asignaciones_campos(cs));
    agregar(&mut r, asignar("__i", siguiente()));
    assert(vista_sentencias(r@) =~= spec_cuerpo_bucle(nombre_funcion@, vista_campos(cs@)));
    r
}

fn validaciones_requeridos(cs: &Vec<Campo>) -> (r: Vec<Sentencia>)
    ensures
        vista_sentencias(r@) == validaciones(vista_campos(cs@), cs@.len()),
{
    let ghost v = vista_campos(cs@);
    let mut r: Vec<Sentencia> = Vec::new();
    let mut i: usize = 0;
    while i < cs.len()
        invariant
            i <= cs.len(),
            v == vista_campos(cs@),
            vista_sentencias(r@) == validaciones(v, i as nat),
        decreases cs.len() - i,
    {
        let art = cs[i].articulo;
        if art == Articulo::El || art == Articulo::La {
            let f = nombre_indexado("__visto_", i);
            let cond = igual(id(f.as_str()), Expresion::Literal(Literal::Booleano(false, Span::vacio())));
            let msg = unir("Falta el argumento requerido: --", cs[i].nombre.as_str());
            let mut body: Vec<Sentencia> = Vec::new();
            agregar(&mut body, expr_sent(llamada("imprimir_linea", uno(palabra(msg.as_str())))));
            agregar(&mut body, retornar(Expresion::Literal(Literal::Entero(1, Span::vacio()))));
            proof {
                assert(vista_sentencias(body@) =~= seq![
                    SpecSentencia::Expresion(
                        spec_llamada("imprimir_linea"@, seq![spec_palabra("Falta el argumento requerido: --"@ + v[i as int].nombre)]),
                    ),
                    spec_retornar(spec_entero(1)),
                ]);
            }
            agregar(&mut r, si(cond, body));
        }
        i = i + 1;
    }
    r
}

fn liberaciones_etiquetas(cs: &Vec<Campo>) -> (r: Vec<Sentencia>)
    ensures
        vista_sentencias(r@) == liberaciones(vista_campos(cs@), cs@.len()),
{
    let ghost v = vista_campos(cs@);
    let mut r: Vec<Sentencia> = Vec::new();
    let mut i: usize = 0;
    while i < cs.len()
        invariant
            i <= cs.len(),
            v == vista_campos(cs@),
            vista_sentencias(r@) == liberaciones(v, i as nat),
        decreases cs.len() - i,
    {
        let etiqueta = nombre_indexado("__etiqueta_", i);
        agregar(&mut r, expr_sent(llamada("texto_liberar", uno(id(etiqueta.as_str())))));
        i = i + 1;
    }
    r
}

fn inicializaciones_campos(cs: &Vec<Campo>) -> (r: Vec<(String, Expresion)>)
    ensures
        vista_inicializaciones(r@) == inicializaciones(vista_campos(cs@), cs@.len()),
{
    let ghost v = vista_campos(cs@);
    let mut r: Vec<(String, Expresion)> = Vec::new();
    let mut i: usize = 0;
    while i < cs.len()
        invariant
            i <= cs.len(),
            v == vista_campos(cs@),
            vista_inicializaciones(r@) == inicializaciones(v, i as nat),
        decreases cs.len() - i,
    {
        let var = nombre_indexado("__campo_", i);
        let par = (cs[i].nombre.clone(), id(var.as_str()));
        proof {
            assert(r@.push(par).drop_last() =~= r@);
        }
        r.push(par);
        i = i + 1;
    }
    r
}

fn sentencias_prologo(
    nombre_funcion: &str,
    nombre_struct: &str,
    cs: &Vec<Campo>,
    param_articulo: Articulo,
    param_nombre: &str,
) -> (r: Vec<Sentencia>)
    ensures
        vista_sentencias(r@) == prologo(nombre_funcion@, nombre_struct@, vista_campos(cs@), param_articulo, param_nombre@),
{
    let mut preludio: Vec<Sentencia> = Vec::new();
    agregar(
        &mut preludio,
        declarar(Articulo::Los, "__argv", Tipo::Vector(Box::new(Tipo::Texto)), llamada("argumentos", Vec::new())),
    );
    agregar(
        &mut preludio,
        declarar(Articulo::El, "__n", Tipo::Entero32, llamada_tipada("vector_longitud", Tipo::Texto, uno(id("__argv")))),
    );
    let ghost s1 = vista_sentencias(preludio@);
    extender(&mut preludio, declaraciones_campos(cs));
    let ghost s2 = vista_sentencias(preludio@);
    extender(&mut preludio, declaraciones_banderas(cs));
    let ghost s3 = vista_sentencias(preludio@);
    extender(&mut preludio, declaraciones_etiquetas(cs));
    let ghost s4 = vista_sentencias(preludio@);
    agregar(
        &mut preludio,
        declarar(Articulo::El, "__etiqueta_ayuda", Tipo::Texto, llamada("texto_desde", uno(palabra("--ayuda")))),
    );
    agregar(&mut preludio, declarar(Articulo::El, "__etiqueta_h", Tipo::Texto, llamada("texto_desde", uno(palabra("-h")))));
    agregar(&mut preludio, declarar(Articulo::El, "__i", Tipo::Entero32, Expresion::Literal(Literal::Entero(1, Span::vacio()))));
    agregar(&mut preludio, mientras(menor(id("__i"), id("__n")), cuerpo_bucle(nombre_funcion, cs)));
    let ghost s5 = vista_sentencias(preludio@);
    extender(&mut preludio, validaciones_requeridos(cs));
    let ghost s6 = vista_sentencias(preludio@);
    extender(&mut preludio, liberaciones_etiquetas(cs));
    let ghost s7 = vista_sentencias(preludio@);
    agregar(&mut preludio, expr_sent(llamada("texto_liberar", uno(id("__etiqueta_ayuda")))));
    agregar(&mut preludio, expr_sent(llamada("texto_liberar", uno(id("__etiqueta_h")))));
    let init = Expresion::InicializacionStruct(String::from_str(nombre_struct), inicializaciones_campos(cs), Span::vacio());
    agregar(&mut preludio, declarar(param_articulo, param_nombre, Tipo::Nombre(String::from_str(nombre_struct)), init));
    proof {
        let v = vista_campos(cs@);
        let n = v.len();
        assert(vista_expresiones(Seq::<Expresion>::empty()) == Seq::<SpecExpresion>::empty());
        assert(s1 =~= seq![
            spec_declarar(
                Articulo::Los,
                "__argv"@,
                SpecTipo::Vector(Box::new(SpecTipo::Texto)),
                spec_llamada("argumentos"@, Seq::empty()),
            ),
            spec_declarar(
                Articulo::El,
                "__n"@,
                SpecTipo::Entero32,
                spec_llamada_tipada("vector_longitud"@, SpecTipo::Texto, seq![spec_id("__argv"@)]),
            ),
        ]);
        assert(vista_sentencias(preludio@) =~= prologo(nombre_funcion@, nombre_struct@, v, param_articulo, param_nombre@));
    }
    preludio
}

fn buscar_principal(ds: &Vec<Declaracion>) -> (r: Option<usize>)
    ensures
        r is None <==> indice_principal(vista_declaraciones(ds@), 0) is None,
        r matches Some(i) ==> indice_principal(vista_declaraciones(ds@), 0) == Some(i as int),
        r matches Some(i) ==> i < ds@.len(),
{
    let ghost v = vista_declaraciones(ds@);
    let mut i: usize = 0;
    while i < ds.len()
        invariant
            i <= ds.len(),
            v == vista_declaraciones(ds@),
            indice_principal(v, 0) == indice_principal(v, i as int),
        decreases ds.len() - i,
    {
        let es = match &ds[i] {
            Declaracion::Funcion(f) => mismo_texto(f.nombre.as_str(), "principal"),
            _ => false,
        };
        assert(es == es_principal(v[i as int]));
        if es {
            return Some(i);
        }
        i = i + 1;
    }
    None
}

fn buscar_struct(ds: &Vec<Declaracion>, nombre: &str) -> (r: Option<usize>)
    ensures
        r is None <==> indice_struct(vista_declaraciones(ds@), nombre@, 0) is None,
        r matches Some(i) ==> indice_struct(vista_declaraciones(ds@), nombre@, 0) == Some(i as int),
        r matches Some(i) ==> i < ds@.len(),
{
    let ghost v = vista_declaraciones(ds@);
    let mut i: usize = 0;
    while i < ds.len()
        invariant
            i <= ds.len(),
            v == vista_declaraciones(ds@),
            indice_struct(v, nombre@, 0) == indice_struct(v, nombre@, i as int),
        decreases ds.len() - i,
    {
        let es = match &ds[i] {
            Declaracion::Estructural(s) => mismo_texto(s.nombre.as_str(), nombre),
            _ => false,
        };
        assert(es == es_struct_llamado(v[i as int], nombre@));
        if es {
            return Some(i);
        }
        i = i + 1;
    }
    None
}

fn validar_campos(cs: &Vec<Campo>, nombre_struct: &str) -> (r: Result<(), String>)
    ensures
        match r {
            Ok(()) => indice_invalido(vista_campos(cs@), 0) is None,
            Err(m) => indice_invalido(vista_campos(cs@), 0) matches Some(k) && m@ == mensaje_campo_invalido(
                vista_campos(cs@)[k],
                nombre_struct@,
            ),
        },
{
    let ghost v = vista_campos(cs@);
    let mut i: usize = 0;
    while i < cs.len()
        invariant
            i <= cs.len(),
            v == vista_campos(cs@),
            indice_invalido(v, 0) == indice_invalido(v, i as int),
        decreases cs.len() - i,
    {
        let art = cs[i].articulo;
        if art == Articulo::Los || art == Articulo::Las {
            let mut m = String::from_str("Campo '");
            m.append(cs[i].nombre.as_str());
            m.append("' del struct de argumentos '");
            m.append(nombre_struct);
            m.append("' usa artículo '");
            if art == Articulo::Los {
                m.append("los");
            } else {
                m.append("las");
            }
            m.append(
                "': los argumentos posicionales (varargs) aún no están soportados en la Fase 2 — usa 'el' (requerido), 'un' (opcional) o 'la' (inmutable)",
            );
            return Err(m);
        }
        if !soportado(&cs[i].tipo) {
            let mut m = String::from_str("Campo '");
            m.append(cs[i].nombre.as_str());
            m.append("' del struct de argumentos '");
            m.append(nombre_struct);
            m.append(
                "' tiene tipo no soportado para parseo tipado (soportados: Texto, Entero32, Entero64, Natural32, Natural64, Flotante64, Booleano)",
            );
            return Err(m);
        }
        i = i + 1;
    }
    Ok(())
}

pub open spec fn vista_declaraciones(s: Seq<Declaracion>) -> Seq<SpecDeclaracion> {
    s.map_values(|d: Declaracion| d@)
}

/// Rewrites `principal(args: MiStruct)` into a `principal()` whose body starts
/// with the parsing of the command line into `args`.  Fails, leaving the
/// program unchanged, when a field of the struct cannot be parsed; leaves the
/// program unchanged when `principal` does not take exactly one parameter
/// whose type names a declared struct.
pub fn preprocesar(programa: &mut Programa) -> (r: Result<(), String>)
    ensures
        r is Ok ==> preprocesado(old(programa)@) == Ok::<SpecPrograma, Seq<char>>(final(programa)@),
        r matches Err(m) ==> preprocesado(old(programa)@) == Err::<SpecPrograma, Seq<char>>(m@) && *final(programa) == *old(programa),
{
    let ghost p0 = programa@;
    let ghost ds = vista_declaraciones(programa.declaraciones@);
    assert(p0.declaraciones == ds);
    let idx = match buscar_principal(&programa.declaraciones) {
        Some(i) => i,
        None => {
            assert(indice_principal(ds, 0) is None);
            assert(preprocesado(p0) == Ok::<SpecPrograma, Seq<char>>(p0));
            assert(p0 == programa@);
            return Ok(());
        },
    };
    let (nombre_funcion, param_articulo, param_nombre, nombre_struct) = match &programa.declaraciones[idx] {
        Declaracion::Funcion(f) => {
            assert(ds[idx as int] == programa.declaraciones@[idx as int]@);
            if f.parametros.len() != 1 {
                assert(preprocesado(p0) == Ok::<SpecPrograma, Seq<char>>(p0));
                return Ok(());
            }
            assert(f@.parametros[0] == f.parametros@[0]@);
            match &f.parametros[0].tipo {
                Tipo::Nombre(n) => (f.nombre.clone(), f.parametros[0].articulo, f.parametros[0].nombre.clone(), n.clone()),
                _ => {
                    assert(preprocesado(p0) == Ok::<SpecPrograma, Seq<char>>(p0));
                    return Ok(());
                },
            }
        },
        _ => {
            assert(ds[idx as int] == programa.declaraciones@[idx as int]@);
            assert(preprocesado(p0) == Ok::<SpecPrograma, Seq<char>>(p0));
            return Ok(());
        },
    };
    let j = match buscar_struct(&programa.declaraciones, nombre_struct.as_str()) {
        Some(j) => j,
        None => {
            assert(preprocesado(p0) == Ok::<SpecPrograma, Seq<char>>(p0));
            return Ok(());
        },
    };
    let preludio = match &programa.declaraciones[j] {
        Declaracion::Estructural(sd) => {
            assert(ds[j as int] == programa.declaraciones@[j as int]@);
            assert(vista_campos(sd.campos@) =~= sd@.campos);
            match validar_campos(&sd.campos, nombre_struct.as_str()) {
                Err(m) => {
                    return Err(m);
                },
                Ok(()) => {},
            }
            sentencias_prologo(
                nombre_funcion.as_str(),
                nombre_struct.as_str(),
                &sd.campos,
                param_articulo,
                param_nombre.as_str(),
            )
        },
        _ => {
            assert(ds[j as int] == programa.declaraciones@[j as int]@);
            assert(preprocesado(p0) == Ok::<SpecPrograma, Seq<char>>(p0));
            return Ok(());
        },
    };
    let decl = programa.declaraciones.remove(idx);
    match decl {
        Declaracion::Funcion(f) => {
            let FuncionDecl {
                nombre,
                parametros_genericos,
                parametros: _,
                retorno,
                cuerpo,
                es_insegura,
                es_vectorizable,
                nivel_verificacion,
                efecto,
                visibilidad,
                es_futuro,
                span,
            } = f;
            let mut nuevo_cuerpo = preludio;
            extender(&mut nuevo_cuerpo, cuerpo.sentencias);
            let nueva = FuncionDecl {
                nombre,
                parametros_genericos,
                parametros: Vec::new(),
                retorno,
                cuerpo: bloque(nuevo_cuerpo),
                es_insegura,
                es_vectorizable,
                nivel_verificacion,
                efecto,
                visibilidad,
                es_futuro,
                span,
            };
            let ghost nueva_v = nueva@;
            programa.declaraciones.insert(idx, Declaracion::Funcion(nueva));
            proof {
                match (ds[idx as int], ds[j as int]) {
                    (SpecDeclaracion::Funcion(fv), SpecDeclaracion::Estructural(sdv)) => {
                        assert(fv == f@);
                        let esperada = principal_reescrita(fv, nombre_struct@, sdv.campos);
                        assert(nueva_v.parametros =~= esperada.parametros);
                        assert(nueva_v.cuerpo == esperada.cuerpo);
                        assert(nueva_v == esperada);
                        assert(vista_declaraciones(programa.declaraciones@) =~= ds.update(
                            idx as int,
                            SpecDeclaracion::Funcion(principal_reescrita(fv, nombre_struct@, sdv.campos)),
                        ));
                    },
                    _ => {},
                }
            }
        },
        other => {
            programa.declaraciones.insert(idx, other);
        },
    }
    Ok(())
}

// ───────────────────────────── laws ─────────────────────────────

proof fn lema_indice_principal_update(ds: Seq<SpecDeclaracion>, desde: int, idx: int, x: SpecDeclaracion)
    requires
        0 <= desde <= idx < ds.len(),
        indice_principal(ds, desde) == Some(idx),
        es_principal(x),
    ensures
        indice_principal(ds.update(idx, x), desde) == Some(idx),
    decreases idx - desde,
{
    if desde < idx {
        lema_indice_principal_update(ds, desde + 1, idx, x);
    }
}

proof fn lema_indice_principal_rango(ds: Seq<SpecDeclaracion>, desde: int)
    ensures
        indice_principal(ds, desde) matches Some(i) ==> desde <= i < ds.len() && es_principal(ds[i]),
    decreases ds.len() - desde,
{
    if 0 <= desde < ds.len() && !es_principal(ds[desde]) {
        lema_indice_principal_rango(ds, desde + 1);
    }
}

/// Preprocessing is idempotent: a program that `preprocesar` accepted is
/// accepted again, and left as it is.
pub proof fn ley_preprocesar_idempotente(p: SpecPrograma, q: SpecPrograma)
    requires
        preprocesado(p) == Ok::<SpecPrograma, Seq<char>>(q),
    ensures
        preprocesado(q) == Ok::<SpecPrograma, Seq<char>>(q),
{
    let ds = p.declaraciones;
    lema_indice_principal_rango(ds, 0);
    if let Some(idx) = indice_principal(ds, 0) {
        if let SpecDeclaracion::Funcion(f) = ds[idx] {
            if f.parametros.len() == 1 {
                if let SpecTipo::Nombre(ns) = f.parametros[0].tipo {
                    if let Some(j) = indice_struct(ds, ns, 0) {
                        if let SpecDeclaracion::Estructural(sd) = ds[j] {
                            if indice_invalido(sd.campos, 0) is None {
                                let g = principal_reescrita(f, ns, sd.campos);
                                lema_indice_principal_update(ds, 0, idx, SpecDeclaracion::Funcion(g));
                                assert(q.declaraciones[idx] == SpecDeclaracion::Funcion(g));
                            }
                        }
                    }
                }
            }
        }
    }
}

/// Preprocessing changes at most one declaration, `principal`: afterwards it
/// takes no parameters, keeps its name, and its original body follows the
/// synthesized prologue unchanged.  All other declarations stay as they were.
pub proof fn ley_preprocesar_conserva(p: SpecPrograma, q: SpecPrograma)
    requires
        preprocesado(p) == Ok::<SpecPrograma, Seq<char>>(q),
    ensures
        q.declaraciones.len() == p.declaraciones.len(),
        forall|i: int|
            0 <= i < q.declaraciones.len() && #[trigger] q.declaraciones[i] != p.declaraciones[i] ==> {
                &&& p.declaraciones[i] matches SpecDeclaracion::Funcion(f)
                &&& q.declaraciones[i] matches SpecDeclaracion::Funcion(g)
                &&& f.nombre == "principal"@
                &&& g.nombre == f.nombre
                &&& f.parametros.len() == 1
                &&& g.parametros.len() == 0
                &&& g.cuerpo.sentencias.len() >= f.cuerpo.sentencias.len()
                &&& g.cuerpo.sentencias.skip(g.cuerpo.sentencias.len() - f.cuerpo.sentencias.len())
                    == f.cuerpo.sentencias
            },
{
    let ds = p.declaraciones;
    lema_indice_principal_rango(ds, 0);
    if let Some(idx) = indice_principal(ds, 0) {
        if let SpecDeclaracion::Funcion(f) = ds[idx] {
            if f.parametros.len() == 1 {
                if let SpecTipo::Nombre(ns) = f.parametros[0].tipo {
                    if let Some(j) = indice_struct(ds, ns, 0) {
                        if let SpecDeclaracion::Estructural(sd) = ds[j] {
                            if indice_invalido(sd.campos, 0) is None {
                                let g = principal_reescrita(f, ns, sd.campos);
                                let pro = prologo(f.nombre, ns, sd.campos, f.parametros[0].articulo, f.parametros[0].nombre);
                                assert(g.cuerpo.sentencias == pro + f.cuerpo.sentencias);
                                assert((pro + f.cuerpo.sentencias).skip(pro.len() as int) =~= f.cuerpo.sentencias);
                            }
                        }
                    }
                }
            }
        }
    }
}

/// The checks of the first `n` fields include that of each required one among them.
proof fn lema_validaciones_contiene(cs: Seq<SpecCampo>, n: nat, k: int)
    requires
        0 <= k < n <= cs.len(),
        es_requerido(cs[k].articulo),
    ensures
        validaciones(cs, n).contains(validacion_requerido(cs, k)),
    decreases n,
{
    let v = validaciones(cs, n);
    if k == n - 1 {
        assert(v[v.len() - 1] == validacion_requerido(cs, k));
    } else {
        lema_validaciones_contiene(cs, (n - 1) as nat, k);
        let previas = validaciones(cs, (n - 1) as nat);
        let j = choose|j: int| 0 <= j < previas.len() && previas[j] == validacion_requerido(cs, k);
        if es_requerido(cs[n - 1].articulo) {
            assert(v[j] == previas[j]);
        }
    }
}

/// Every required field (`el`) is checked: the rewritten `principal` reports
/// `Falta el argumento requerido: --campo` and returns 1 when its label was
/// not given.
pub proof fn ley_requeridos_validados(f: SpecFuncionDecl, nombre_struct: Seq<char>, cs: Seq<SpecCampo>, k: int)
    requires
        f.parametros.len() == 1,
        0 <= k < cs.len(),
        es_requerido(cs[k].articulo),
    ensures
        principal_reescrita(f, nombre_struct, cs).cuerpo.sentencias.contains(validacion_requerido(cs, k)),
{
    lema_validaciones_contiene(cs, cs.len(), k);
    let v = validaciones(cs, cs.len());
    let j = choose|j: int| 0 <= j < v.len() && v[j] == validacion_requerido(cs, k);
    let n = cs.len();
    let antes = seq![
        spec_declarar(
            Articulo::Los,
            "__argv"@,
            SpecTipo::Vector(Box::new(SpecTipo::Texto)),
            spec_llamada("argumentos"@, Seq::empty()),
        ),
        spec_declarar(
            Articulo::El,
            "__n"@,
            SpecTipo::Entero32,
            spec_llamada_tipada("vector_longitud"@, SpecTipo::Texto, seq![spec_id("__argv"@)]),
        ),
    ] + decl_campos(cs, n) + decl_banderas(cs, n) + decl_etiquetas(cs, n) + seq![
        spec_declarar(
            Articulo::El,
            "__etiqueta_ayuda"@,
            SpecTipo::Texto,
            spec_llamada("texto_desde"@, seq![spec_palabra("--ayuda"@)]),
        ),
        spec_declarar(
            Articulo::El,
            "__etiqueta_h"@,
            SpecTipo::Texto,
            spec_llamada("texto_desde"@, seq![spec_palabra("-h"@)]),
        ),
        spec_declarar(Articulo::El, "__i"@, SpecTipo::Entero32, spec_entero(1)),
        spec_mientras(
            spec_binaria(spec_id("__i"@), OperadorBinario::Menor, spec_id("__n"@)),
            spec_cuerpo_bucle(f.nombre, cs),
        ),
    ];
    let p = prologo(f.nombre, nombre_struct, cs, f.parametros[0].articulo, f.parametros[0].nombre);
    let cuerpo = principal_reescrita(f, nombre_struct, cs).cuerpo.sentencias;
    assert(cuerpo == p + f.cuerpo.sentencias);
    assert(p[antes.len() + j] == v[j]);
    assert(cuerpo[antes.len() + j] == v[j]);
}

/// Every check among those of the first `n` fields is that of a required one.
proof fn lema_validaciones_de_requeridos(cs: Seq<SpecCampo>, n: nat, j: int)
    requires
        n <= cs.len(),
        0 <= j < validaciones(cs, n).len(),
    ensures
        exists|i: int|
            0 <= i < n && es_requerido(cs[i].articulo) && validaciones(cs, n)[j] == validacion_requerido(cs, i),
    decreases n,
{
    let previas = validaciones(cs, (n - 1) as nat);
    if j < previas.len() {
        lema_validaciones_de_requeridos(cs, (n - 1) as nat, j);
        let i = choose|i: int|
            0 <= i < n - 1 && es_requerido(cs[i].articulo) && previas[j] == validacion_requerido(cs, i);
        assert(validaciones(cs, n)[j] == previas[j]);
    } else {
        assert(validaciones(cs, n)[j] == validacion_requerido(cs, n - 1));
    }
}

/// The checks of two fields differ: each tests its own flag `__visto_i`.
proof fn lema_validaciones_distintas(cs: Seq<SpecCampo>, i: int, k: int)
    requires
        0 <= i,
        0 <= k,
        validacion_requerido(cs, i) == validacion_requerido(cs, k),
    ensures
        i == k,
{
    let a = con_indice("__visto_"@, i);
    let b = con_indice("__visto_"@, k);
    assert(a == b);
    let p = "__visto_"@;
    assert(a.subrange(p.len() as int, a.len() as int) =~= decimal(i as nat));
    assert(b.subrange(p.len() as int, b.len() as int) =~= decimal(k as nat));
    lema_decimal_digitos(i as nat);
    lema_decimal_digitos(k as nat);
}

/// Exactly the required fields (`el`) are checked: among the checks of the
/// fields, that of a field occurs if and only if the field is required.
pub proof fn ley_validados_son_los_requeridos(cs: Seq<SpecCampo>, k: int)
    requires
        0 <= k < cs.len(),
    ensures
        validaciones(cs, cs.len()).contains(validacion_requerido(cs, k)) <==> es_requerido(cs[k].articulo),
{
    if es_requerido(cs[k].articulo) {
        lema_validaciones_contiene(cs, cs.len(), k);
    } else if validaciones(cs, cs.len()).contains(validacion_requerido(cs, k)) {
        let v = validaciones(cs, cs.len());
        let j = choose|j: int| 0 <= j < v.len() && v[j] == validacion_requerido(cs, k);
        lema_validaciones_de_requeridos(cs, cs.len(), j);
        let i = choose|i: int|
            0 <= i < cs.len() && es_requerido(cs[i].articulo) && v[j] == validacion_requerido(cs, i);
        lema_validaciones_distintas(cs, i, k);
    }
}

/// A call of `f` on the single argument `val`, as the typed-argument prologue writes it.
pub open spec fn llamada_sobre(f: Seq<char>, val: SpecExpresion) -> SpecExpresion {
    SpecExpresion::Llamada(SpecLlamada { funcion: f, tipo_args: Seq::empty(), argumentos: seq![val], span: span_vacio() })
}

/// The value text of a flag is read as a value of the field's own type: an
/// integer field through `texto_a_entero`, a natural one through
/// `texto_a_natural`, a float through `texto_a_flotante` and a boolean through
/// `texto_a_booleano`, narrowed by `como_entero32` for the 32-bit types; a
/// text field takes the text itself.
pub proof fn ley_conversion_lee_el_tipo_del_campo(val: SpecExpresion)
    ensures
        spec_conversion(SpecTipo::Entero64, val) == llamada_sobre("texto_a_entero"@, val),
        spec_conversion(SpecTipo::Entero32, val) == llamada_sobre(
            "como_entero32"@,
            llamada_sobre("texto_a_entero"@, val),
        ),
        spec_conversion(SpecTipo::Natural64, val) == llamada_sobre("texto_a_natural"@, val),
        spec_conversion(SpecTipo::Natural32, val) == llamada_sobre(
            "como_entero32"@,
            llamada_sobre("texto_a_natural"@, val),
        ),
        spec_conversion(SpecTipo::Flotante64, val) == llamada_sobre("texto_a_flotante"@, val),
        spec_conversion(SpecTipo::Booleano, val) == llamada_sobre("texto_a_booleano"@, val),
        spec_conversion(SpecTipo::Texto, val) == val,
{
}

} // verus!
