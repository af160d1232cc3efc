//! Generics: which types mention a generic parameter, inference of a
//! parameter's value from the types of the arguments, substitution of
//! parameters by concrete types and values, and specialization of functions.

use vstd::prelude::*;
use crate::ast::{
    vista_expresiones, vista_inicializaciones, vista_ramas, vista_sentencias, vista_tipo,
    vista_tipo_opt, vista_tipos, Asignacion, Bloque, BucleMientras, BuclePara, Condicional,
    DeclaracionVariable, Expresion, FuncionDecl, Literal, Llamada, Parametro, ParametroGenerico,
    RamaSeleccionar, Seleccionar, Sentencia, SpecBloque, SpecBucleMientras, SpecBuclePara,
    SpecCondicional, SpecDeclaracionVariable, SpecExpresion, SpecFuncionDecl, SpecLiteral,
    SpecLlamada, SpecParametro, SpecParametroGenerico, SpecRamaSeleccionar, SpecSeleccionar,
    SpecSentencia, SpecAsignacion, SpecTipo, Tipo,
};
use crate::clonar::{
    clonar_bloque, clonar_expresion, clonar_sentencia, clonar_texto_opt, clonar_tipo, clonar_tipos,
};
use crate::codegen::{buscar, posicion, vista_pares, Codegen};
use crate::texto::{decimal, lectura_i64, lectura_usize, leer_i64, leer_usize, mismo_texto, usize_a_texto};
use vstd::string::StringExecFns;

verus! {

// ───────────────────────────── models ─────────────────────────────

/// Whether `t` mentions the generic parameter `g`, as a type or as the length
/// of an array, anywhere inside it.
pub open spec fn contiene_generico(t: SpecTipo, g: Seq<char>) -> bool
    decreases t,
{
    match t {
        SpecTipo::Generico(n) => n == g,
        SpecTipo::ArrayGenerico(e, n) => n == g || contiene_generico(*e, g),
        SpecTipo::Array(e, _) => contiene_generico(*e, g),
        SpecTipo::Vector(e) => contiene_generico(*e, g),
        SpecTipo::Conjunto(e) => contiene_generico(*e, g),
        SpecTipo::Diccionario(k, v) => contiene_generico(*k, g) || contiene_generico(*v, g),
        SpecTipo::Resultado(t, e) => contiene_generico(*t, g) || contiene_generico(*e, g),
        SpecTipo::Puntero(e) => contiene_generico(*e, g),
        SpecTipo::Referencia(e) => contiene_generico(*e, g),
        SpecTipo::ReferenciaMut(e) => contiene_generico(*e, g),
        SpecTipo::ReferenciaConLifetime(_, e) => contiene_generico(*e, g),
        SpecTipo::ReferenciaMutConLifetime(_, e) => contiene_generico(*e, g),
        SpecTipo::ReferenciaSelf(e) => contiene_generico(*e, g),
        SpecTipo::ReferenciaMutSelf(e) => contiene_generico(*e, g),
        SpecTipo::NombreGenerico(_, args) => alguno_contiene(args, g),
        _ => false,
    }
}

pub open spec fn alguno_contiene(s: Seq<SpecTipo>, g: Seq<char>) -> bool
    decreases s,
{
    if s.len() == 0 {
        false
    } else {
        alguno_contiene(s.drop_last(), g) || contiene_generico(s.last(), g)
    }
}

/// The type `t` with each generic type parameter of `st` replaced by its type,
/// and each generic array length of `sc` whose value reads as a `usize`
/// replaced by that number.
pub open spec fn tipo_sustituido(
    t: SpecTipo,
    sc: Seq<(Seq<char>, Seq<char>)>,
    st: Seq<(Seq<char>, SpecTipo)>,
) -> SpecTipo
    decreases t,
{
    match t {
        SpecTipo::Generico(n) => match buscar(st, n) {
            Some(c) => c,
            None => t,
        },
        SpecTipo::ArrayGenerico(e, n) => match buscar(sc, n) {
            Some(v) => match lectura_usize(v) {
                Some(k) => SpecTipo::Array(Box::new(tipo_sustituido(*e, sc, st)), k),
                None => SpecTipo::ArrayGenerico(Box::new(tipo_sustituido(*e, sc, st)), n),
            },
            None => SpecTipo::ArrayGenerico(Box::new(tipo_sustituido(*e, sc, st)), n),
        },
        SpecTipo::Array(e, n) => SpecTipo::Array(Box::new(tipo_sustituido(*e, sc, st)), n),
        SpecTipo::Vector(e) => SpecTipo::Vector(Box::new(tipo_sustituido(*e, sc, st))),
        SpecTipo::Conjunto(e) => SpecTipo::Conjunto(Box::new(tipo_sustituido(*e, sc, st))),
        SpecTipo::Diccionario(k, v) => SpecTipo::Diccionario(
            Box::new(tipo_sustituido(*k, sc, st)),
            Box::new(tipo_sustituido(*v, sc, st)),
        ),
        SpecTipo::Resultado(t, e) => SpecTipo::Resultado(
            Box::new(tipo_sustituido(*t, sc, st)),
            Box::new(tipo_sustituido(*e, sc, st)),
        ),
        SpecTipo::Puntero(e) => SpecTipo::Puntero(Box::new(tipo_sustituido(*e, sc, st))),
        SpecTipo::Referencia(e) => SpecTipo::Referencia(Box::new(tipo_sustituido(*e, sc, st))),
        SpecTipo::ReferenciaMut(e) => SpecTipo::ReferenciaMut(Box::new(tipo_sustituido(*e, sc, st))),
        SpecTipo::ReferenciaConLifetime(l, e) => SpecTipo::ReferenciaConLifetime(
            l,
            Box::new(tipo_sustituido(*e, sc, st)),
        ),
        SpecTipo::ReferenciaMutConLifetime(l, e) => SpecTipo::ReferenciaMutConLifetime(
            l,
            Box::new(tipo_sustituido(*e, sc, st)),
        ),
        SpecTipo::ReferenciaSelf(e) => SpecTipo::ReferenciaSelf(Box::new(tipo_sustituido(*e, sc, st))),
        SpecTipo::ReferenciaMutSelf(e) => SpecTipo::ReferenciaMutSelf(
            Box::new(tipo_sustituido(*e, sc, st)),
        ),
        SpecTipo::NombreGenerico(n, args) => SpecTipo::NombreGenerico(n, tipos_sustituidos(args, sc, st)),
        _ => t,
    }
}

pub open spec fn tipos_sustituidos(
    s: Seq<SpecTipo>,
    sc: Seq<(Seq<char>, Seq<char>)>,
    st: Seq<(Seq<char>, SpecTipo)>,
) -> Seq<SpecTipo>
    decreases s,
{
    if s.len() == 0 {
        Seq::empty()
    } else {
        tipos_sustituidos(s.drop_last(), sc, st).push(tipo_sustituido(s.last(), sc, st))
    }
}

pub open spec fn tipo_opt_sustituido(
    t: Option<SpecTipo>,
    sc: Seq<(Seq<char>, Seq<char>)>,
    st: Seq<(Seq<char>, SpecTipo)>,
) -> Option<SpecTipo> {
    match t {
        Some(t) => Some(tipo_sustituido(t, sc, st)),
        None => None,
    }
}

/// The expression `e` with each identifier named in `sc` whose value reads as
/// an `i64` replaced by that integer literal.  Subexpressions are visited
/// through operators, calls, array and field accesses, array literals, struct
/// and enum constructors and variant tests; other forms are kept as they are.
pub open spec fn expresion_sustituida(e: SpecExpresion, sc: Seq<(Seq<char>, Seq<char>)>) -> SpecExpresion
    decreases e,
{
    match e {
        SpecExpresion::Identificador(n, span) => match buscar(sc, n) {
            Some(v) => match lectura_i64(v) {
                Some(k) => SpecExpresion::Literal(SpecLiteral::Entero(k, span)),
                None => e,
            },
            None => e,
        },
        SpecExpresion::Binaria(a, op, b, s) => SpecExpresion::Binaria(
            Box::new(expresion_sustituida(*a, sc)),
            op,
            Box::new(expresion_sustituida(*b, sc)),
            s,
        ),
        SpecExpresion::Unaria(op, a, s) => SpecExpresion::Unaria(op, Box::new(expresion_sustituida(*a, sc)), s),
        SpecExpresion::Llamada(l) => SpecExpresion::Llamada(
            SpecLlamada { argumentos: expresiones_sustituidas(l.argumentos, sc), ..l },
        ),
        SpecExpresion::AccesoArray(a, i, s) => SpecExpresion::AccesoArray(
            Box::new(expresion_sustituida(*a, sc)),
            Box::new(expresion_sustituida(*i, sc)),
            s,
        ),
        SpecExpresion::LiteralArray(v, s) => SpecExpresion::LiteralArray(expresiones_sustituidas(v, sc), s),
        SpecExpresion::ArrayRelleno(a, n, s) => SpecExpresion::ArrayRelleno(
            Box::new(expresion_sustituida(*a, sc)),
            n,
            s,
        ),
        SpecExpresion::InicializacionStruct(n, c, s) => SpecExpresion::InicializacionStruct(
            n,
            inicializaciones_sustituidas(c, sc),
            s,
        ),
        SpecExpresion::AccesoCampo(a, c, s) => SpecExpresion::AccesoCampo(Box::new(expresion_sustituida(*a, sc)), c, s),
        SpecExpresion::ConstructorEnum(en, v, a, s) => SpecExpresion::ConstructorEnum(
            en,
            v,
            expresiones_sustituidas(a, sc),
            s,
        ),
        SpecExpresion::EsVariante(a, en, v, b, s) => SpecExpresion::EsVariante(
            Box::new(expresion_sustituida(*a, sc)),
            en,
            v,
            b,
            s,
        ),
        _ => e,
    }
}

pub open spec fn expresiones_sustituidas(s: Seq<SpecExpresion>, sc: Seq<(Seq<char>, Seq<char>)>) -> Seq<SpecExpresion>
    decreases s,
{
    if s.len() == 0 {
        Seq::empty()
    } else {
        expresiones_sustituidas(s.drop_last(), sc).push(expresion_sustituida(s.last(), sc))
    }
}

pub open spec fn inicializaciones_sustituidas(
    s: Seq<(Seq<char>, SpecExpresion)>,
    sc: Seq<(Seq<char>, Seq<char>)>,
) -> Seq<(Seq<char>, SpecExpresion)>
    decreases s,
{
    if s.len() == 0 {
        Seq::empty()
    } else {
        inicializaciones_sustituidas(s.drop_last(), sc).push(
            (s.last().0, expresion_sustituida(s.last().1, sc)),
        )
    }
}

/// The statement `st` with `sc` substituted in its expressions and `sc`, `st`
/// in the declared types of its variables, recursively through its blocks.
pub open spec fn sentencia_sustituida(
    s: SpecSentencia,
    sc: Seq<(Seq<char>, Seq<char>)>,
    st: Seq<(Seq<char>, SpecTipo)>,
) -> SpecSentencia
    decreases s,
{
    match s {
        SpecSentencia::Expresion(e) => SpecSentencia::Expresion(expresion_sustituida(e, sc)),
        SpecSentencia::DeclaracionVariable(d) => SpecSentencia::DeclaracionVariable(
            SpecDeclaracionVariable {
                tipo: tipo_opt_sustituido(d.tipo, sc, st),
                valor: expresion_sustituida(d.valor, sc),
                ..d
            },
        ),
        SpecSentencia::Asignacion(a) => SpecSentencia::Asignacion(
            SpecAsignacion { valor: expresion_sustituida(a.valor, sc), ..a },
        ),
        SpecSentencia::Retornar(e, span) => SpecSentencia::Retornar(
            match e {
                Some(e) => Some(expresion_sustituida(e, sc)),
                None => None,
            },
            span,
        ),
        SpecSentencia::Condicional(c) => SpecSentencia::Condicional(
            SpecCondicional {
                condicion: expresion_sustituida(c.condicion, sc),
                bloque_entonces: SpecBloque {
                    sentencias: sentencias_sustituidas(c.bloque_entonces.sentencias, sc, st),
                    span: c.bloque_entonces.span,
                },
                bloque_sino: match c.bloque_sino {
                    Some(b) => Some(
                        SpecBloque { sentencias: sentencias_sustituidas(b.sentencias, sc, st), span: b.span },
                    ),
                    None => None,
                },
                modo: c.modo,
                span: c.span,
            },
        ),
        SpecSentencia::BucleMientras(b) => SpecSentencia::BucleMientras(
            SpecBucleMientras {
                condicion: expresion_sustituida(b.condicion, sc),
                bloque: SpecBloque {
                    sentencias: sentencias_sustituidas(b.bloque.sentencias, sc, st),
                    span: b.bloque.span,
                },
                span: b.span,
            },
        ),
        SpecSentencia::BuclePara(b) => SpecSentencia::BuclePara(
            SpecBuclePara {
                variable: b.variable,
                iterable: expresion_sustituida(b.iterable, sc),
                bloque: SpecBloque {
                    sentencias: sentencias_sustituidas(b.bloque.sentencias, sc, st),
                    span: b.bloque.span,
                },
                span: b.span,
            },
        ),
        SpecSentencia::Region { nombre, cuerpo, span } => SpecSentencia::Region {
            nombre,
            cuerpo: sentencias_sustituidas(cuerpo, sc, st),
            span,
        },
        SpecSentencia::Seleccionar(sel) => SpecSentencia::Seleccionar(
            SpecSeleccionar { ramas: ramas_sustituidas(sel.ramas, sc, st), span: sel.span },
        ),
        SpecSentencia::ConExecutor { hilos, cuerpo, span } => SpecSentencia::ConExecutor {
            hilos,
            cuerpo: sentencias_sustituidas(cuerpo, sc, st),
            span,
        },
        _ => s,
    }
}

pub open spec fn sentencias_sustituidas(
    s: Seq<SpecSentencia>,
    sc: Seq<(Seq<char>, Seq<char>)>,
    st: Seq<(Seq<char>, SpecTipo)>,
) -> Seq<SpecSentencia>
    decreases s,
{
    if s.len() == 0 {
        Seq::empty()
    } else {
        sentencias_sustituidas(s.drop_last(), sc, st).push(sentencia_sustituida(s.last(), sc, st))
    }
}

pub open spec fn ramas_sustituidas(
    s: Seq<SpecRamaSeleccionar>,
    sc: Seq<(Seq<char>, Seq<char>)>,
    st: Seq<(Seq<char>, SpecTipo)>,
) -> Seq<SpecRamaSeleccionar>
    decreases s,
{
    if s.len() == 0 {
        Seq::empty()
    } else {
        ramas_sustituidas(s.drop_last(), sc, st).push(
            SpecRamaSeleccionar {
                operacion: s.last().operacion,
                cuerpo: SpecBloque {
                    sentencias: sentencias_sustituidas(s.last().cuerpo.sentencias, sc, st),
                    span: s.last().cuerpo.span,
                },
                span: s.last().span,
            },
        )
    }
}


/// The name that identifies a concrete type inside the name of a specialized function.
pub open spec fn nombre_instancia(t: SpecTipo) -> Seq<char>
    decreases t,
{
    match t {
        SpecTipo::Entero8 => "Entero8"@,
        SpecTipo::Entero16 => "Entero16"@,
        SpecTipo::Entero32 => "Entero32"@,
        SpecTipo::Entero64 => "Entero64"@,
        SpecTipo::Natural8 => "Natural8"@,
        SpecTipo::Natural16 => "Natural16"@,
        SpecTipo::Natural32 => "Natural32"@,
        SpecTipo::Natural64 => "Natural64"@,
        SpecTipo::Flotante32 => "Flotante32"@,
        SpecTipo::Flotante64 => "Flotante64"@,
        SpecTipo::Booleano => "Booleano"@,
        SpecTipo::Caracter => "Caracter"@,
        SpecTipo::Palabra => "Palabra"@,
        SpecTipo::Texto => "Texto"@,
        SpecTipo::Vacio => "Vacio"@,
        SpecTipo::Nombre(n) => n,
        SpecTipo::Generico(n) => n,
        SpecTipo::Array(e, n) => "Array_"@ + nombre_instancia(*e) + "_"@ + decimal(n as nat),
        SpecTipo::ArrayGenerico(e, n) => "Array_"@ + nombre_instancia(*e) + "_"@ + n,
        SpecTipo::Vector(e) => "Vector_"@ + nombre_instancia(*e),
        SpecTipo::Diccionario(k, v) => "Diccionario_"@ + nombre_instancia(*k) + "_"@ + nombre_instancia(*v),
        SpecTipo::Conjunto(e) => "Conjunto_"@ + nombre_instancia(*e),
        SpecTipo::Resultado(t, e) => "Resultado_"@ + nombre_instancia(*t) + "_"@ + nombre_instancia(*e),
        SpecTipo::Puntero(e) => "Ptr_"@ + nombre_instancia(*e),
        SpecTipo::Referencia(e) => "Ref_"@ + nombre_instancia(*e),
        SpecTipo::ReferenciaMut(e) => "RefMut_"@ + nombre_instancia(*e),
        SpecTipo::ReferenciaConLifetime(_, e) => "Ref_"@ + nombre_instancia(*e),
        SpecTipo::ReferenciaMutConLifetime(_, e) => "RefMut_"@ + nombre_instancia(*e),
        SpecTipo::ReferenciaSelf(e) => "RefSelf_"@ + nombre_instancia(*e),
        SpecTipo::ReferenciaMutSelf(e) => "RefMutSelf_"@ + nombre_instancia(*e),
        SpecTipo::NombreGenerico(n, args) => n + "_"@ + nombres_unidos(args),
    }
}

/// The names of the types of `s`, separated by `_`.
pub open spec fn nombres_unidos(s: Seq<SpecTipo>) -> Seq<char>
    decreases s,
{
    if s.len() == 0 {
        Seq::empty()
    } else if s.len() == 1 {
        nombre_instancia(s[0])
    } else {
        nombres_unidos(s.drop_last()) + "_"@ + nombre_instancia(s.last())
    }
}

/// The concrete type that the generic parameter `g` stands for, read off the
/// type `arg` of an argument passed where `param` is expected: the part of
/// `arg` that stands where `param` has `g`, looking through every type
/// constructor that both share (the first component first).
pub open spec fn tipo_extraido(arg: SpecTipo, g: Seq<char>, param: SpecTipo) -> Option<SpecTipo>
    decreases param,
{
    match param {
        SpecTipo::Generico(n) => if n == g {
            Some(arg)
        } else {
            None
        },
        SpecTipo::ArrayGenerico(p, _) => match arg {
            SpecTipo::Array(a, _) => tipo_extraido(*a, g, *p),
            _ => None,
        },
        SpecTipo::Array(p, _) => match arg {
            SpecTipo::Array(a, _) => tipo_extraido(*a, g, *p),
            _ => None,
        },
        SpecTipo::Vector(p) => match arg {
            SpecTipo::Vector(a) => tipo_extraido(*a, g, *p),
            _ => None,
        },
        SpecTipo::Conjunto(p) => match arg {
            SpecTipo::Conjunto(a) => tipo_extraido(*a, g, *p),
            _ => None,
        },
        SpecTipo::Diccionario(pk, pv) => match arg {
            SpecTipo::Diccionario(ak, av) => match tipo_extraido(*ak, g, *pk) {
                Some(t) => Some(t),
                None => tipo_extraido(*av, g, *pv),
            },
            _ => None,
        },
        SpecTipo::Resultado(pt, pe) => match arg {
            SpecTipo::Resultado(at, ae) => match tipo_extraido(*at, g, *pt) {
                Some(t) => Some(t),
                None => tipo_extraido(*ae, g, *pe),
            },
            _ => None,
        },
        SpecTipo::Puntero(p) => match arg {
            SpecTipo::Puntero(a) => tipo_extraido(*a, g, *p),
            _ => None,
        },
        SpecTipo::Referencia(p) => match arg {
            SpecTipo::Referencia(a) => tipo_extraido(*a, g, *p),
            _ => None,
        },
        SpecTipo::ReferenciaMut(p) => match arg {
            SpecTipo::ReferenciaMut(a) => tipo_extraido(*a, g, *p),
            _ => None,
        },
        SpecTipo::ReferenciaConLifetime(_, p) => match arg {
            SpecTipo::ReferenciaConLifetime(_, a) => tipo_extraido(*a, g, *p),
            _ => None,
        },
        SpecTipo::ReferenciaMutConLifetime(_, p) => match arg {
            SpecTipo::ReferenciaMutConLifetime(_, a) => tipo_extraido(*a, g, *p),
            _ => None,
        },
        SpecTipo::ReferenciaSelf(p) => match arg {
            SpecTipo::ReferenciaSelf(a) => tipo_extraido(*a, g, *p),
            _ => None,
        },
        SpecTipo::ReferenciaMutSelf(p) => match arg {
            SpecTipo::ReferenciaMutSelf(a) => tipo_extraido(*a, g, *p),
            _ => None,
        },
        SpecTipo::NombreGenerico(_, ps) => match arg {
            SpecTipo::NombreGenerico(_, args) => extraido_en_lista(args, g, ps),
            _ => None,
        },
        _ => None,
    }
}

/// The first type extracted from the pairs of `args` and `params`, in order.
pub open spec fn extraido_en_lista(args: Seq<SpecTipo>, g: Seq<char>, params: Seq<SpecTipo>) -> Option<SpecTipo>
    decreases params,
{
    if params.len() == 0 || args.len() == 0 {
        None
    } else {
        match tipo_extraido(args[0], g, params[0]) {
            Some(t) => Some(t),
            None => extraido_en_lista(args.drop_first(), g, params.drop_first()),
        }
    }
}

/// The state of inference after the first `k` parameters: `None` once two of
/// them disagree on the type of `g`, else the type found so far, if any.
pub open spec fn inferencia_tipo(
    params: Seq<SpecParametro>,
    targs: Seq<SpecTipo>,
    g: Seq<char>,
    k: nat,
) -> Option<Option<SpecTipo>>
    decreases k,
{
    if k == 0 {
        Some(None)
    } else {
        match inferencia_tipo(params, targs, g, (k - 1) as nat) {
            None => None,
            Some(prev) => {
                let i = k - 1;
                if contiene_generico(params[i].tipo, g) {
                    match tipo_extraido(targs[i], g, params[i].tipo) {
                        Some(t) => match prev {
                            Some(p) => if p != t {
                                None
                            } else {
                                Some(prev)
                            },
                            None => Some(Some(t)),
                        },
                        None => Some(prev),
                    }
                } else {
                    Some(prev)
                }
            },
        }
    }
}

pub open spec fn min_nat(a: nat, b: nat) -> nat {
    if a <= b {
        a
    } else {
        b
    }
}

/// The type inferred for the generic parameter `g` from the types `targs` of
/// the arguments passed for `params`: `None` if no argument determines it or
/// two of them disagree.
pub open spec fn tipo_generico_inferido(params: Seq<SpecParametro>, targs: Seq<SpecTipo>, g: Seq<char>) -> Option<SpecTipo> {
    match inferencia_tipo(params, targs, g, min_nat(params.len(), targs.len())) {
        Some(r) => r,
        None => None,
    }
}

/// The length of an array type.
pub open spec fn longitud_array(t: SpecTipo) -> Option<usize> {
    match t {
        SpecTipo::Array(_, n) => Some(n),
        _ => None,
    }
}

/// The value inferred for the const generic `g`: the length of the type of
/// the first argument that is an array and whose parameter mentions `g`.
pub open spec fn const_generico_inferido(params: Seq<SpecParametro>, targs: Seq<SpecTipo>, g: Seq<char>) -> Option<usize>
    decreases params.len(),
{
    if params.len() == 0 || targs.len() == 0 {
        None
    } else if contiene_generico(params[0].tipo, g) && longitud_array(targs[0]) is Some {
        longitud_array(targs[0])
    } else {
        const_generico_inferido(params.drop_first(), targs.drop_first(), g)
    }
}

/// The part of a specialized function's name that a generic parameter gives.
pub open spec fn parte_nombre(
    gp: SpecParametroGenerico,
    sc: Seq<(Seq<char>, Seq<char>)>,
    st: Seq<(Seq<char>, SpecTipo)>,
) -> Seq<char> {
    if gp.tipo is Some {
        match buscar(sc, gp.nombre) {
            Some(v) => v,
            None => gp.nombre,
        }
    } else {
        match buscar(st, gp.nombre) {
            Some(t) => nombre_instancia(t),
            None => gp.nombre,
        }
    }
}

pub open spec fn partes_unidas(
    gps: Seq<SpecParametroGenerico>,
    sc: Seq<(Seq<char>, Seq<char>)>,
    st: Seq<(Seq<char>, SpecTipo)>,
) -> Seq<char>
    decreases gps.len(),
{
    if gps.len() == 0 {
        Seq::empty()
    } else if gps.len() == 1 {
        parte_nombre(gps[0], sc, st)
    } else {
        partes_unidas(gps.drop_last(), sc, st) + "_"@ + parte_nombre(gps.last(), sc, st)
    }
}

/// The specialization of `f`: its name extended with the concrete values of
/// its generic parameters, no generic parameters left, and the substitutions
/// applied to its parameter types, return type and body.
pub open spec fn funcion_especializada(
    f: SpecFuncionDecl,
    sc: Seq<(Seq<char>, Seq<char>)>,
    st: Seq<(Seq<char>, SpecTipo)>,
) -> SpecFuncionDecl {
    SpecFuncionDecl {
        nombre: f.nombre + "_"@ + partes_unidas(f.parametros_genericos, sc, st),
        parametros_genericos: Seq::empty(),
        parametros: f.parametros.map_values(
            |p: SpecParametro| SpecParametro { articulo: p.articulo, nombre: p.nombre, tipo: tipo_sustituido(p.tipo, sc, st) },
        ),
        retorno: tipo_opt_sustituido(f.retorno, sc, st),
        cuerpo: SpecBloque { sentencias: sentencias_sustituidas(f.cuerpo.sentencias, sc, st), span: f.cuerpo.span },
        ..f
    }
}

// ───────────────────────────── lemmas ─────────────────────────────

/// The model of a list of types is the list of the models of its types.
pub proof fn lema_vista_tipos(s: Seq<Tipo>)
    ensures
        vista_tipos(s).len() == s.len(),
        forall|i: int| 0 <= i < s.len() ==> #[trigger] vista_tipos(s)[i] == vista_tipo(s[i]),
    decreases s.len(),
{
    if s.len() > 0 {
        lema_vista_tipos(s.drop_last());
    }
}

/// Some type of the list mentions `g` exactly when one of them does.
pub proof fn lema_alguno_contiene(s: Seq<SpecTipo>, g: Seq<char>)
    ensures
        alguno_contiene(s, g) <==> exists|i: int| 0 <= i < s.len() && contiene_generico(#[trigger] s[i], g),
    decreases s.len(),
{
    if s.len() > 0 {
        lema_alguno_contiene(s.drop_last(), g);
        if alguno_contiene(s.drop_last(), g) {
            let i = choose|i: int| 0 <= i < s.drop_last().len() && contiene_generico(#[trigger] s.drop_last()[i], g);
            assert(s[i] == s.drop_last()[i]);
        }
        if exists|i: int| 0 <= i < s.len() && contiene_generico(#[trigger] s[i], g) {
            let i = choose|i: int| 0 <= i < s.len() && contiene_generico(#[trigger] s[i], g);
            if i < s.len() - 1 {
                assert(s.drop_last()[i] == s[i]);
            }
        }
    }
}

// ───────────────────────────── code ─────────────────────────────

impl Codegen {
    /// Whether `tipo` mentions the generic parameter `nombre_generico`.
    #[verifier::loop_isolation(false)]
    pub fn tipo_contiene_generico(&self, tipo: &Tipo, nombre_generico: &str) -> (r: bool)
        ensures
            r == contiene_generico(tipo@, nombre_generico@),
        decreases tipo,
    {
        match tipo {
            Tipo::Generico(n) => mismo_texto(n.as_str(), nombre_generico),
            Tipo::ArrayGenerico(t, n) => {
                if mismo_texto(n.as_str(), nombre_generico) {
                    true
                } else {
                    self.tipo_contiene_generico(t, nombre_generico)
                }
            },
            Tipo::Array(t, _) => self.tipo_contiene_generico(t, nombre_generico),
            Tipo::Vector(t) => self.tipo_contiene_generico(t, nombre_generico),
            Tipo::Conjunto(t) => self.tipo_contiene_generico(t, nombre_generico),
            Tipo::Diccionario(k, v) => {
                self.tipo_contiene_generico(k, nombre_generico) || self.tipo_contiene_generico(v, nombre_generico)
            },
            Tipo::Resultado(t, e) => {
                self.tipo_contiene_generico(t, nombre_generico) || self.tipo_contiene_generico(e, nombre_generico)
            },
            Tipo::Puntero(t) => self.tipo_contiene_generico(t, nombre_generico),
            Tipo::Referencia(t) => self.tipo_contiene_generico(t, nombre_generico),
            Tipo::ReferenciaMut(t) => self.tipo_contiene_generico(t, nombre_generico),
            Tipo::ReferenciaConLifetime(_, t) => self.tipo_contiene_generico(t, nombre_generico),
            Tipo::ReferenciaMutConLifetime(_, t) => self.tipo_contiene_generico(t, nombre_generico),
            Tipo::ReferenciaSelf(t) => self.tipo_contiene_generico(t, nombre_generico),
            Tipo::ReferenciaMutSelf(t) => self.tipo_contiene_generico(t, nombre_generico),
            Tipo::NombreGenerico(_, args) => {
                let mut i: usize = 0;
                while i < args.len()
                    invariant
                        i <= args.len(),
                        !alguno_contiene(vista_tipos(args@.take(i as int)), nombre_generico@),
                    decreases args.len() - i,
                {
                    proof {
                        assert(decreases_to!(*tipo => *args));
                        assert(decreases_to!(*args => args@));
                        assert(decreases_to!(args@ => args@[i as int]));
                        assert(args@.take(i + 1).drop_last() =~= args@.take(i as int));
                        assert(vista_tipos(args@.take(i + 1)).drop_last() =~= vista_tipos(
                            args@.take(i as int),
                        ));
                    }
                    if self.tipo_contiene_generico(&args[i], nombre_generico) {
                        proof {
                            lema_vista_tipos(args@);
                            lema_alguno_contiene(vista_tipos(args@), nombre_generico@);
                            assert(contiene_generico(vista_tipos(args@)[i as int], nombre_generico@));
                        }
                        return true;
                    }
                    i = i + 1;
                }
                assert(args@.take(args.len() as int) =~= args@);
                false
            },
            _ => false,
        }
    }

    /// The length of an array type: the value that a const generic takes.
    pub fn extraer_valor_generico(&self, tipo: &Tipo, _nombre_generico: &str) -> (r: Option<usize>)
        ensures
            r == (match tipo@ {
                SpecTipo::Array(_, n) => Some(n),
                _ => None,
            }),
    {
        match tipo {
            Tipo::Array(_, n) => Some(*n),
            _ => None,
        }
    }

    #[verifier::loop_isolation(false)]
    fn tipo_con_sustitucion(
        &self,
        tipo: &Tipo,
        sust_consts: &Vec<(String, String)>,
        sust_tipos: &Vec<(String, Tipo)>,
    ) -> (r: Tipo)
        ensures
            r@ == tipo_sustituido(tipo@, vista_pares(sust_consts@), vista_pares(sust_tipos@)),
        decreases tipo,
    {
        let ghost sc = vista_pares(sust_consts@);
        let ghost st = vista_pares(sust_tipos@);
        match tipo {
            Tipo::Generico(nombre) => match posicion(sust_tipos, nombre.as_str()) {
                Some(i) => clonar_tipo(&sust_tipos[i].1),
                None => clonar_tipo(tipo),
            },
            Tipo::ArrayGenerico(t, nombre) => {
                match posicion(sust_consts, nombre.as_str()) {
                    Some(i) => match leer_usize(sust_consts[i].1.as_str()) {
                        Some(n) => {
                            return Tipo::Array(Box::new(self.tipo_con_sustitucion(t, sust_consts, sust_tipos)), n);
                        },
                        None => {},
                    },
                    None => {},
                }
                Tipo::ArrayGenerico(
                    Box::new(self.tipo_con_sustitucion(t, sust_consts, sust_tipos)),
                    nombre.clone(),
                )
            },
            Tipo::Array(t, n) => Tipo::Array(Box::new(self.tipo_con_sustitucion(t, sust_consts, sust_tipos)), *n),
            Tipo::Vector(t) => Tipo::Vector(Box::new(self.tipo_con_sustitucion(t, sust_consts, sust_tipos))),
            Tipo::Conjunto(t) => Tipo::Conjunto(Box::new(self.tipo_con_sustitucion(t, sust_consts, sust_tipos))),
            Tipo::Diccionario(k, v) => Tipo::Diccionario(
                Box::new(self.tipo_con_sustitucion(k, sust_consts, sust_tipos)),
                Box::new(self.tipo_con_sustitucion(v, sust_consts, sust_tipos)),
            ),
            Tipo::Resultado(t, e) => Tipo::Resultado(
                Box::new(self.tipo_con_sustitucion(t, sust_consts, sust_tipos)),
                Box::new(self.tipo_con_sustitucion(e, sust_consts, sust_tipos)),
            ),
            Tipo::Puntero(t) => Tipo::Puntero(Box::new(self.tipo_con_sustitucion(t, sust_consts, sust_tipos))),
            Tipo::Referencia(t) => Tipo::Referencia(
                Box::new(self.tipo_con_sustitucion(t, sust_consts, sust_tipos)),
            ),
            Tipo::ReferenciaMut(t) => Tipo::ReferenciaMut(
                Box::new(self.tipo_con_sustitucion(t, sust_consts, sust_tipos)),
            ),
            Tipo::ReferenciaConLifetime(l, t) => Tipo::ReferenciaConLifetime(
                l.clone(),
                Box::new(self.tipo_con_sustitucion(t, sust_consts, sust_tipos)),
            ),
            Tipo::ReferenciaMutConLifetime(l, t) => Tipo::ReferenciaMutConLifetime(
                l.clone(),
                Box::new(self.tipo_con_sustitucion(t, sust_consts, sust_tipos)),
            ),
            Tipo::ReferenciaSelf(t) => Tipo::ReferenciaSelf(
                Box::new(self.tipo_con_sustitucion(t, sust_consts, sust_tipos)),
            ),
            Tipo::ReferenciaMutSelf(t) => Tipo::ReferenciaMutSelf(
                Box::new(self.tipo_con_sustitucion(t, sust_consts, sust_tipos)),
            ),
            Tipo::NombreGenerico(n, args) => {
                let mut r: Vec<Tipo> = Vec::new();
                let mut i: usize = 0;
                while i < args.len()
                    invariant
                        i <= args.len(),
                        sc == vista_pares(sust_consts@),
                        st == vista_pares(sust_tipos@),
                        vista_tipos(r@) == tipos_sustituidos(vista_tipos(args@.take(i as int)), sc, st),
                    decreases args.len() - i,
                {
                    proof {
                        assert(decreases_to!(*tipo => *args));
                        assert(decreases_to!(*args => args@));
                        assert(decreases_to!(args@ => args@[i as int]));
                    }
                    let c = self.tipo_con_sustitucion(&args[i], sust_consts, sust_tipos);
                    proof {
                        assert(args@.take(i + 1).drop_last() =~= args@.take(i as int));
                        assert(vista_tipos(args@.take(i + 1)).drop_last() =~= vista_tipos(
                            args@.take(i as int),
                        ));
                        assert(r@.push(c).drop_last() =~= r@);
                    }
                    r.push(c);
                    i = i + 1;
                }
                assert(args@.take(args.len() as int) =~= args@);
                Tipo::NombreGenerico(n.clone(), r)
            },
            _ => clonar_tipo(tipo),
        }
    }

    /// Substitutes the generic parameters of `tipo`: type parameters by the
    /// types of `sust_tipos`, array lengths by the values of `sust_consts`.
    pub fn sustituir_tipo(
        &self,
        tipo: &mut Tipo,
        sust_consts: &Vec<(String, String)>,
        sust_tipos: &Vec<(String, Tipo)>,
    )
        ensures
            final(tipo)@ == tipo_sustituido(old(tipo)@, vista_pares(sust_consts@), vista_pares(sust_tipos@)),
    {
        let nuevo = self.tipo_con_sustitucion(tipo, sust_consts, sust_tipos);
        *tipo = nuevo;
    }
}

impl Codegen {
    #[verifier::loop_isolation(false)]
    fn expresion_con_sustitucion(&self, expr: &Expresion, sust: &Vec<(String, String)>) -> (r: Expresion)
        ensures
            r@ == expresion_sustituida(expr@, vista_pares(sust@)),
        decreases expr,
    {
        match expr {
            Expresion::Identificador(nombre, span) => {
                match posicion(sust, nombre.as_str()) {
                    Some(i) => match leer_i64(sust[i].1.as_str()) {
                        Some(n) => {
                            return Expresion::Literal(Literal::Entero(n, *span));
                        },
                        None => {},
                    },
                    None => {},
                }
                clonar_expresion(expr)
            },
            Expresion::Binaria(a, op, b, s) => Expresion::Binaria(
                Box::new(self.expresion_con_sustitucion(a, sust)),
                *op,
                Box::new(self.expresion_con_sustitucion(b, sust)),
                *s,
            ),
            Expresion::Unaria(op, a, s) => Expresion::Unaria(*op, Box::new(self.expresion_con_sustitucion(a, sust)), *s),
            Expresion::Llamada(l) => {
                proof {
                    assert(decreases_to!(*expr => l.argumentos));
                }
                Expresion::Llamada(
                    Llamada {
                        funcion: l.funcion.clone(),
                        tipo_args: clonar_tipos(&l.tipo_args),
                        argumentos: self.expresiones_con_sustitucion(&l.argumentos, sust),
                        span: l.span,
                    },
                )
            },
            Expresion::AccesoArray(a, i, s) => Expresion::AccesoArray(
                Box::new(self.expresion_con_sustitucion(a, sust)),
                Box::new(self.expresion_con_sustitucion(i, sust)),
                *s,
            ),
            Expresion::LiteralArray(v, s) => Expresion::LiteralArray(self.expresiones_con_sustitucion(v, sust), *s),
            Expresion::ArrayRelleno(a, n, s) => Expresion::ArrayRelleno(
                Box::new(self.expresion_con_sustitucion(a, sust)),
                *n,
                *s,
            ),
            Expresion::InicializacionStruct(n, campos, s) => {
                let mut r: Vec<(String, Expresion)> = Vec::new();
                let mut i: usize = 0;
                while i < campos.len()
                    invariant
                        i <= campos.len(),
                        vista_inicializaciones(r@) == inicializaciones_sustituidas(
                            vista_inicializaciones(campos@.take(i as int)),
                            vista_pares(sust@),
                        ),
                    decreases campos.len() - i,
                {
                    proof {
                        assert(decreases_to!(*expr => *campos));
                        assert(decreases_to!(*campos => campos@));
                        assert(decreases_to!(campos@ => campos@[i as int]));
                        assert(decreases_to!(campos@[i as int] => campos@[i as int].1));
                    }
                    let nombre = campos[i].0.clone();
                    let valor = self.expresion_con_sustitucion(&campos[i].1, sust);
                    proof {
                        assert(campos@.take(i + 1).drop_last() =~= campos@.take(i as int));
                        assert(vista_inicializaciones(campos@.take(i + 1)).drop_last() =~= vista_inicializaciones(
                            campos@.take(i as int),
                        ));
                        assert(r@.push((nombre, valor)).drop_last() =~= r@);
                    }
                    r.push((nombre, valor));
                    i = i + 1;
                }
                assert(campos@.take(campos.len() as int) =~= campos@);
                Expresion::InicializacionStruct(n.clone(), r, *s)
            },
            Expresion::AccesoCampo(a, c, s) => Expresion::AccesoCampo(
                Box::new(self.expresion_con_sustitucion(a, sust)),
                c.clone(),
                *s,
            ),
            Expresion::ConstructorEnum(en, v, a, s) => Expresion::ConstructorEnum(
                en.clone(),
                v.clone(),
                self.expresiones_con_sustitucion(a, sust),
                *s,
            ),
            Expresion::EsVariante(a, en, v, b, s) => Expresion::EsVariante(
                Box::new(self.expresion_con_sustitucion(a, sust)),
                en.clone(),
                v.clone(),
                clonar_texto_opt(b),
                *s,
            ),
            _ => clonar_expresion(expr),
        }
    }

    fn expresiones_con_sustitucion(&self, v: &Vec<Expresion>, sust: &Vec<(String, String)>) -> (r: Vec<Expresion>)
        ensures
            vista_expresiones(r@) == expresiones_sustituidas(vista_expresiones(v@), vista_pares(sust@)),
        decreases v,
    {
        let mut r: Vec<Expresion> = Vec::new();
        let mut i: usize = 0;
        while i < v.len()
            invariant
                i <= v.len(),
                vista_expresiones(r@) == expresiones_sustituidas(
                    vista_expresiones(v@.take(i as int)),
                    vista_pares(sust@),
                ),
            decreases v.len() - i,
        {
            proof {
                assert(decreases_to!(*v => v@));
                assert(decreases_to!(v@ => v@[i as int]));
            }
            let c = self.expresion_con_sustitucion(&v[i], sust);
            proof {
                assert(v@.take(i + 1).drop_last() =~= v@.take(i as int));
                assert(vista_expresiones(v@.take(i + 1)).drop_last() =~= vista_expresiones(
                    v@.take(i as int),
                ));
                assert(r@.push(c).drop_last() =~= r@);
            }
            r.push(c);
            i = i + 1;
        }
        assert(v@.take(v.len() as int) =~= v@);
        r
    }

    /// Replaces in `expr` each identifier named in `sustituciones` whose value
    /// reads as an integer by that integer literal.
    pub fn sustituir_en_expresion(&self, expr: &mut Expresion, sustituciones: &Vec<(String, String)>)
        ensures
            final(expr)@ == expresion_sustituida(old(expr)@, vista_pares(sustituciones@)),
    {
        let nueva = self.expresion_con_sustitucion(expr, sustituciones);
        *expr = nueva;
    }
}

impl Codegen {
    fn tipo_opt_con_sustitucion(
        &self,
        tipo: &Option<Tipo>,
        sust_consts: &Vec<(String, String)>,
        sust_tipos: &Vec<(String, Tipo)>,
    ) -> (r: Option<Tipo>)
        ensures
            vista_tipo_opt(r) == tipo_opt_sustituido(
                vista_tipo_opt(*tipo),
                vista_pares(sust_consts@),
                vista_pares(sust_tipos@),
            ),
    {
        match tipo {
            Some(t) => Some(self.tipo_con_sustitucion(t, sust_consts, sust_tipos)),
            None => None,
        }
    }

    fn bloque_con_sustitucion(
        &self,
        b: &Bloque,
        sust_consts: &Vec<(String, String)>,
        sust_tipos: &Vec<(String, Tipo)>,
    ) -> (r: Bloque)
        ensures
            r@ == (SpecBloque {
                sentencias: sentencias_sustituidas(b@.sentencias, vista_pares(sust_consts@), vista_pares(sust_tipos@)),
                span: b.span,
            }),
        decreases b,
    {
        proof {
            assert(decreases_to!(*b => b.sentencias));
        }
        Bloque {
            sentencias: self.sentencias_con_sustitucion(&b.sentencias, sust_consts, sust_tipos),
            span: b.span,
        }
    }

    fn sentencia_con_sustitucion(
        &self,
        sentencia: &Sentencia,
        sust_consts: &Vec<(String, String)>,
        sust_tipos: &Vec<(String, Tipo)>,
    ) -> (r: Sentencia)
        ensures
            r@ == sentencia_sustituida(sentencia@, vista_pares(sust_consts@), vista_pares(sust_tipos@)),
        decreases sentencia,
    {
        match sentencia {
            Sentencia::Expresion(e) => Sentencia::Expresion(self.expresion_con_sustitucion(e, sust_consts)),
            Sentencia::DeclaracionVariable(d) => Sentencia::DeclaracionVariable(
                DeclaracionVariable {
                    articulo: d.articulo,
                    nombre: d.nombre.clone(),
                    tipo: self.tipo_opt_con_sustitucion(&d.tipo, sust_consts, sust_tipos),
                    valor: self.expresion_con_sustitucion(&d.valor, sust_consts),
                    span: d.span,
                },
            ),
            Sentencia::Asignacion(a) => {
                let lugar = match &a.lugar {
                    crate::ast::Lugar::Identificador(n) => crate::ast::Lugar::Identificador(n.clone()),
                    crate::ast::Lugar::Campo(b, c) => crate::ast::Lugar::Campo(b.clone(), c.clone()),
                };
                Sentencia::Asignacion(
                    Asignacion { lugar, valor: self.expresion_con_sustitucion(&a.valor, sust_consts), span: a.span },
                )
            },
            Sentencia::Retornar(e, s) => {
                let e2 = match e {
                    Some(x) => Some(self.expresion_con_sustitucion(x, sust_consts)),
                    None => None,
                };
                Sentencia::Retornar(e2, *s)
            },
            Sentencia::Condicional(c) => {
                proof {
                    assert(decreases_to!(*sentencia => c.bloque_entonces));
                }
                let sino = match &c.bloque_sino {
                    Some(b) => {
                        proof {
                            assert(decreases_to!(*sentencia => c.bloque_sino));
                            assert(decreases_to!(c.bloque_sino => *b));
                        }
                        Some(self.bloque_con_sustitucion(b, sust_consts, sust_tipos))
                    },
                    None => None,
                };
                Sentencia::Condicional(
                    Condicional {
                        condicion: self.expresion_con_sustitucion(&c.condicion, sust_consts),
                        bloque_entonces: self.bloque_con_sustitucion(&c.bloque_entonces, sust_consts, sust_tipos),
                        bloque_sino: sino,
                        modo: c.modo,
                        span: c.span,
                    },
                )
            },
            Sentencia::BucleMientras(b) => {
                proof {
                    assert(decreases_to!(*sentencia => b.bloque));
                }
                Sentencia::BucleMientras(
                    BucleMientras {
                        condicion: self.expresion_con_sustitucion(&b.condicion, sust_consts),
                        bloque: self.bloque_con_sustitucion(&b.bloque, sust_consts, sust_tipos),
                        span: b.span,
                    },
                )
            },
            Sentencia::BuclePara(b) => {
                proof {
                    assert(decreases_to!(*sentencia => b.bloque));
                }
                Sentencia::BuclePara(
                    BuclePara {
                        variable: b.variable.clone(),
                        iterable: self.expresion_con_sustitucion(&b.iterable, sust_consts),
                        bloque: self.bloque_con_sustitucion(&b.bloque, sust_consts, sust_tipos),
                        span: b.span,
                    },
                )
            },
            Sentencia::Region { nombre, cuerpo, span } => Sentencia::Region {
                nombre: nombre.clone(),
                cuerpo: self.sentencias_con_sustitucion(cuerpo, sust_consts, sust_tipos),
                span: *span,
            },
            Sentencia::Seleccionar(sel) => {
                proof {
                    assert(decreases_to!(*sentencia => sel.ramas));
                }
                Sentencia::Seleccionar(
                    Seleccionar {
                        ramas: self.ramas_con_sustitucion(&sel.ramas, sust_consts, sust_tipos),
                        span: sel.span,
                    },
                )
            },
            Sentencia::ConExecutor { hilos, cuerpo, span } => Sentencia::ConExecutor {
                hilos: *hilos,
                cuerpo: self.sentencias_con_sustitucion(cuerpo, sust_consts, sust_tipos),
                span: *span,
            },
            _ => clonar_sentencia(sentencia),
        }
    }

    fn sentencias_con_sustitucion(
        &self,
        v: &Vec<Sentencia>,
        sust_consts: &Vec<(String, String)>,
        sust_tipos: &Vec<(String, Tipo)>,
    ) -> (r: Vec<Sentencia>)
        ensures
            vista_sentencias(r@) == sentencias_sustituidas(
                vista_sentencias(v@),
                vista_pares(sust_consts@),
                vista_pares(sust_tipos@),
            ),
        decreases v,
    {
        let mut r: Vec<Sentencia> = Vec::new();
        let mut i: usize = 0;
        while i < v.len()
            invariant
                i <= v.len(),
                vista_sentencias(r@) == sentencias_sustituidas(
                    vista_sentencias(v@.take(i as int)),
                    vista_pares(sust_consts@),
                    vista_pares(sust_tipos@),
                ),
            decreases v.len() - i,
        {
            proof {
                assert(decreases_to!(*v => v@));
                assert(decreases_to!(v@ => v@[i as int]));
            }
            let c = self.sentencia_con_sustitucion(&v[i], sust_consts, sust_tipos);
            proof {
                assert(v@.take(i + 1).drop_last() =~= v@.take(i as int));
                assert(vista_sentencias(v@.take(i + 1)).drop_last() =~= vista_sentencias(
                    v@.take(i as int),
                ));
                assert(r@.push(c).drop_last() =~= r@);
            }
            r.push(c);
            i = i + 1;
        }
        assert(v@.take(v.len() as int) =~= v@);
        r
    }

    fn ramas_con_sustitucion(
        &self,
        v: &Vec<RamaSeleccionar>,
        sust_consts: &Vec<(String, String)>,
        sust_tipos: &Vec<(String, Tipo)>,
    ) -> (r: Vec<RamaSeleccionar>)
        ensures
            vista_ramas(r@) == ramas_sustituidas(vista_ramas(v@), vista_pares(sust_consts@), vista_pares(sust_tipos@)),
        decreases v,
    {
        let mut r: Vec<RamaSeleccionar> = Vec::new();
        let mut i: usize = 0;
        while i < v.len()
            invariant
                i <= v.len(),
                vista_ramas(r@) == ramas_sustituidas(
                    vista_ramas(v@.take(i as int)),
                    vista_pares(sust_consts@),
                    vista_pares(sust_tipos@),
                ),
            decreases v.len() - i,
        {
            proof {
                assert(decreases_to!(*v => v@));
                assert(decreases_to!(v@ => v@[i as int]));
                assert(decreases_to!(v@[i as int] => v@[i as int].cuerpo));
            }
            let rama = RamaSeleccionar {
                operacion: clonar_expresion(&v[i].operacion),
                cuerpo: self.bloque_con_sustitucion(&v[i].cuerpo, sust_consts, sust_tipos),
                span: v[i].span,
            };
            proof {
                assert(v@.take(i + 1).drop_last() =~= v@.take(i as int));
                assert(vista_ramas(v@.take(i + 1)).drop_last() =~= vista_ramas(v@.take(i as int)));
                assert(r@.push(rama).drop_last() =~= r@);
            }
            r.push(rama);
            i = i + 1;
        }
        assert(v@.take(v.len() as int) =~= v@);
        r
    }

    /// Substitutes the generic parameters in a statement: const parameters in
    /// its expressions, type and const parameters in its declared types.
    pub fn sustituir_en_sentencia(
        &self,
        sentencia: &mut Sentencia,
        sust_consts: &Vec<(String, String)>,
        sust_tipos: &Vec<(String, Tipo)>,
    )
        ensures
            final(sentencia)@ == sentencia_sustituida(
                old(sentencia)@,
                vista_pares(sust_consts@),
                vista_pares(sust_tipos@),
            ),
    {
        let nueva = self.sentencia_con_sustitucion(sentencia, sust_consts, sust_tipos);
        *sentencia = nueva;
    }
}

/// The text `prefijo + nombre`.
fn con_prefijo(prefijo: &str, nombre: String) -> (r: String)
    ensures
        r@ == prefijo@ + nombre@,
{
    let mut r = String::from_str(prefijo);
    r.append(nombre.as_str());
    r
}

/// The text `prefijo + a + "_" + b`.
fn con_prefijo_par(prefijo: &str, a: String, b: String) -> (r: String)
    ensures
        r@ == prefijo@ + a@ + "_"@ + b@,
{
    let mut r = String::from_str(prefijo);
    r.append(a.as_str());
    r.append("_");
    r.append(b.as_str());
    r
}

impl Codegen {
    /// The name that identifies a concrete type in the name of a specialization.
    #[verifier::loop_isolation(false)]
    pub fn nombre_tipo_instancia(&self, tipo: &Tipo) -> (r: String)
        ensures
            r@ == nombre_instancia(tipo@),
        decreases tipo,
    {
        match tipo {
            Tipo::Entero8 => String::from_str("Entero8"),
            Tipo::Entero16 => String::from_str("Entero16"),
            Tipo::Entero32 => String::from_str("Entero32"),
            Tipo::Entero64 => String::from_str("Entero64"),
            Tipo::Natural8 => String::from_str("Natural8"),
            Tipo::Natural16 => String::from_str("Natural16"),
            Tipo::Natural32 => String::from_str("Natural32"),
            Tipo::Natural64 => String::from_str("Natural64"),
            Tipo::Flotante32 => String::from_str("Flotante32"),
            Tipo::Flotante64 => String::from_str("Flotante64"),
            Tipo::Booleano => String::from_str("Booleano"),
            Tipo::Caracter => String::from_str("Caracter"),
            Tipo::Palabra => String::from_str("Palabra"),
            Tipo::Texto => String::from_str("Texto"),
            Tipo::Vacio => String::from_str("Vacio"),
            Tipo::Nombre(n) => n.clone(),
            Tipo::Generico(n) => n.clone(),
            Tipo::Array(t, n) => con_prefijo_par("Array_", self.nombre_tipo_instancia(t), usize_a_texto(*n)),
            Tipo::ArrayGenerico(t, n) => con_prefijo_par("Array_", self.nombre_tipo_instancia(t), n.clone()),
            Tipo::Vector(t) => con_prefijo("Vector_", self.nombre_tipo_instancia(t)),
            Tipo::Diccionario(k, v) => con_prefijo_par(
                "Diccionario_",
                self.nombre_tipo_instancia(k),
                self.nombre_tipo_instancia(v),
            ),
            Tipo::Conjunto(t) => con_prefijo("Conjunto_", self.nombre_tipo_instancia(t)),
            Tipo::Resultado(t, e) => con_prefijo_par(
                "Resultado_",
                self.nombre_tipo_instancia(t),
                self.nombre_tipo_instancia(e),
            ),
            Tipo::Puntero(t) => con_prefijo("Ptr_", self.nombre_tipo_instancia(t)),
            Tipo::Referencia(t) => con_prefijo("Ref_", self.nombre_tipo_instancia(t)),
            Tipo::ReferenciaMut(t) => con_prefijo("RefMut_", self.nombre_tipo_instancia(t)),
            Tipo::ReferenciaConLifetime(_, t) => con_prefijo("Ref_", self.nombre_tipo_instancia(t)),
            Tipo::ReferenciaMutConLifetime(_, t) => con_prefijo("RefMut_", self.nombre_tipo_instancia(t)),
            Tipo::ReferenciaSelf(t) => con_prefijo("RefSelf_", self.nombre_tipo_instancia(t)),
            Tipo::ReferenciaMutSelf(t) => con_prefijo("RefMutSelf_", self.nombre_tipo_instancia(t)),
            Tipo::NombreGenerico(n, args) => {
                let mut unidos = String::new();
                let mut i: usize = 0;
                while i < args.len()
                    invariant
                        i <= args.len(),
                        unidos@ == nombres_unidos(vista_tipos(args@.take(i as int))),
                    decreases args.len() - i,
                {
                    proof {
                        assert(decreases_to!(*tipo => *args));
                        assert(decreases_to!(*args => args@));
                        assert(decreases_to!(args@ => args@[i as int]));
                        lema_vista_tipos(args@.take(i as int));
                        lema_vista_tipos(args@.take(i + 1));
                        assert(args@.take(i + 1).drop_last() =~= args@.take(i as int));
                        assert(vista_tipos(args@.take(i + 1)).drop_last() =~= vista_tipos(
                            args@.take(i as int),
                        ));
                    }
                    let nombre = self.nombre_tipo_instancia(&args[i]);
                    if i > 0 {
                        unidos.append("_");
                    }
                    unidos.append(nombre.as_str());
                    i = i + 1;
                }
                assert(args@.take(args.len() as int) =~= args@);
                let mut r = n.clone();
                r.append("_");
                r.append(unidos.as_str());
                r
            },
        }
    }
}

/// Whether two types are the same type.
#[verifier::loop_isolation(false)]
pub fn tipos_iguales(a: &Tipo, b: &Tipo) -> (r: bool)
    ensures
        r == (a@ == b@),
    decreases a,
{
    match (a, b) {
        (Tipo::Entero8, Tipo::Entero8) => true,
        (Tipo::Entero16, Tipo::Entero16) => true,
        (Tipo::Entero32, Tipo::Entero32) => true,
        (Tipo::Entero64, Tipo::Entero64) => true,
        (Tipo::Natural8, Tipo::Natural8) => true,
        (Tipo::Natural16, Tipo::Natural16) => true,
        (Tipo::Natural32, Tipo::Natural32) => true,
        (Tipo::Natural64, Tipo::Natural64) => true,
        (Tipo::Flotante32, Tipo::Flotante32) => true,
        (Tipo::Flotante64, Tipo::Flotante64) => true,
        (Tipo::Booleano, Tipo::Booleano) => true,
        (Tipo::Caracter, Tipo::Caracter) => true,
        (Tipo::Palabra, Tipo::Palabra) => true,
        (Tipo::Texto, Tipo::Texto) => true,
        (Tipo::Vacio, Tipo::Vacio) => true,
        (Tipo::Nombre(x), Tipo::Nombre(y)) => mismo_texto(x.as_str(), y.as_str()),
        (Tipo::Generico(x), Tipo::Generico(y)) => mismo_texto(x.as_str(), y.as_str()),
        (Tipo::Array(x, n), Tipo::Array(y, m)) => *n == *m && tipos_iguales(x, y),
        (Tipo::ArrayGenerico(x, n), Tipo::ArrayGenerico(y, m)) => mismo_texto(n.as_str(), m.as_str())
            && tipos_iguales(x, y),
        (Tipo::Vector(x), Tipo::Vector(y)) => tipos_iguales(x, y),
        (Tipo::Diccionario(k1, v1), Tipo::Diccionario(k2, v2)) => tipos_iguales(k1, k2) && tipos_iguales(v1, v2),
        (Tipo::Conjunto(x), Tipo::Conjunto(y)) => tipos_iguales(x, y),
        (Tipo::Resultado(t1, e1), Tipo::Resultado(t2, e2)) => tipos_iguales(t1, t2) && tipos_iguales(e1, e2),
        (Tipo::Puntero(x), Tipo::Puntero(y)) => tipos_iguales(x, y),
        (Tipo::Referencia(x), Tipo::Referencia(y)) => tipos_iguales(x, y),
        (Tipo::ReferenciaMut(x), Tipo::ReferenciaMut(y)) => tipos_iguales(x, y),
        (Tipo::ReferenciaConLifetime(l1, x), Tipo::ReferenciaConLifetime(l2, y)) => mismo_texto(
            l1.as_str(),
            l2.as_str(),
        ) && tipos_iguales(x, y),
        (Tipo::ReferenciaMutConLifetime(l1, x), Tipo::ReferenciaMutConLifetime(l2, y)) => mismo_texto(
            l1.as_str(),
            l2.as_str(),
        ) && tipos_iguales(x, y),
        (Tipo::ReferenciaSelf(x), Tipo::ReferenciaSelf(y)) => tipos_iguales(x, y),
        (Tipo::ReferenciaMutSelf(x), Tipo::ReferenciaMutSelf(y)) => tipos_iguales(x, y),
        (Tipo::NombreGenerico(n1, xs), Tipo::NombreGenerico(n2, ys)) => {
            if !mismo_texto(n1.as_str(), n2.as_str()) {
                return false;
            }
            proof {
                lema_vista_tipos(xs@);
                lema_vista_tipos(ys@);
            }
            if xs.len() != ys.len() {
                assert(vista_tipos(xs@).len() != vista_tipos(ys@).len());
                return false;
            }
            let mut i: usize = 0;
            while i < xs.len()
                invariant
                    i <= xs.len(),
                    xs.len() == ys.len(),
                    forall|j: int| 0 <= j < i ==> vista_tipo(#[trigger] xs@[j]) == vista_tipo(ys@[j]),
                decreases xs.len() - i,
            {
                proof {
                    assert(decreases_to!(*a => *xs));
                    assert(decreases_to!(*xs => xs@));
                    assert(decreases_to!(xs@ => xs@[i as int]));
                }
                if !tipos_iguales(&xs[i], &ys[i]) {
                    assert(vista_tipos(xs@)[i as int] != vista_tipos(ys@)[i as int]);
                    return false;
                }
                i = i + 1;
            }
            assert(vista_tipos(xs@) =~= vista_tipos(ys@));
            true
        },
        _ => false,
    }
}

impl Codegen {
    /// Reads the concrete type of the generic parameter `nombre_generico` off
    /// the type `tipo_arg` of an argument passed for a parameter of type `param_tipo`.
    #[verifier::loop_isolation(false)]
    pub fn extraer_tipo_generico(&self, tipo_arg: &Tipo, nombre_generico: &str, param_tipo: &Tipo) -> (r: Option<Tipo>)
        ensures
            vista_tipo_opt(r) == tipo_extraido(tipo_arg@, nombre_generico@, param_tipo@),
        decreases param_tipo,
    {
        match param_tipo {
            Tipo::Generico(n) => {
                if mismo_texto(n.as_str(), nombre_generico) {
                    Some(clonar_tipo(tipo_arg))
                } else {
                    None
                }
            },
            Tipo::ArrayGenerico(p, _) => match tipo_arg {
                Tipo::Array(a, _) => self.extraer_tipo_generico(a, nombre_generico, p),
                _ => None,
            },
            Tipo::Array(p, _) => match tipo_arg {
                Tipo::Array(a, _) => self.extraer_tipo_generico(a, nombre_generico, p),
                _ => None,
            },
            Tipo::Vector(p) => match tipo_arg {
                Tipo::Vector(a) => self.extraer_tipo_generico(a, nombre_generico, p),
                _ => None,
            },
            Tipo::Conjunto(p) => match tipo_arg {
                Tipo::Conjunto(a) => self.extraer_tipo_generico(a, nombre_generico, p),
                _ => None,
            },
            Tipo::Diccionario(pk, pv) => match tipo_arg {
                Tipo::Diccionario(ak, av) => match self.extraer_tipo_generico(ak, nombre_generico, pk) {
                    Some(t) => Some(t),
                    None => self.extraer_tipo_generico(av, nombre_generico, pv),
                },
                _ => None,
            },
            Tipo::Resultado(pt, pe) => match tipo_arg {
                Tipo::Resultado(at, ae) => match self.extraer_tipo_generico(at, nombre_generico, pt) {
                    Some(t) => Some(t),
                    None => self.extraer_tipo_generico(ae, nombre_generico, pe),
                },
                _ => None,
            },
            Tipo::Puntero(p) => match tipo_arg {
                Tipo::Puntero(a) => self.extraer_tipo_generico(a, nombre_generico, p),
                _ => None,
            },
            Tipo::Referencia(p) => match tipo_arg {
                Tipo::Referencia(a) => self.extraer_tipo_generico(a, nombre_generico, p),
                _ => None,
            },
            Tipo::ReferenciaMut(p) => match tipo_arg {
                Tipo::ReferenciaMut(a) => self.extraer_tipo_generico(a, nombre_generico, p),
                _ => None,
            },
            Tipo::ReferenciaConLifetime(_, p) => match tipo_arg {
                Tipo::ReferenciaConLifetime(_, a) => self.extraer_tipo_generico(a, nombre_generico, p),
                _ => None,
            },
            Tipo::ReferenciaMutConLifetime(_, p) => match tipo_arg {
                Tipo::ReferenciaMutConLifetime(_, a) => self.extraer_tipo_generico(a, nombre_generico, p),
                _ => None,
            },
            Tipo::ReferenciaSelf(p) => match tipo_arg {
                Tipo::ReferenciaSelf(a) => self.extraer_tipo_generico(a, nombre_generico, p),
                _ => None,
            },
            Tipo::ReferenciaMutSelf(p) => match tipo_arg {
                Tipo::ReferenciaMutSelf(a) => self.extraer_tipo_generico(a, nombre_generico, p),
                _ => None,
            },
            Tipo::NombreGenerico(_, ps) => match tipo_arg {
                Tipo::NombreGenerico(_, args) => {
                    let ghost vps = vista_tipos(ps@);
                    let ghost vas = vista_tipos(args@);
                    proof {
                        lema_vista_tipos(ps@);
                        lema_vista_tipos(args@);
                        assert(vps.skip(0) =~= vps);
                        assert(vas.skip(0) =~= vas);
                    }
                    let mut i: usize = 0;
                    while i < ps.len() && i < args.len()
                        invariant
                            i <= ps.len(),
                            i <= args.len(),
                            extraido_en_lista(vas, nombre_generico@, vps) == extraido_en_lista(
                                vas.skip(i as int),
                                nombre_generico@,
                                vps.skip(i as int),
                            ),
                        decreases ps.len() - i,
                    {
                        proof {
                            assert(decreases_to!(*param_tipo => *ps));
                            assert(decreases_to!(*ps => ps@));
                            assert(decreases_to!(ps@ => ps@[i as int]));
                            assert(vas.skip(i as int)[0] == vas[i as int]);
                            assert(vps.skip(i as int)[0] == vps[i as int]);
                            assert(vas.skip(i as int).drop_first() =~= vas.skip(i + 1));
                            assert(vps.skip(i as int).drop_first() =~= vps.skip(i + 1));
                        }
                        match self.extraer_tipo_generico(&args[i], nombre_generico, &ps[i]) {
                            Some(t) => {
                                return Some(t);
                            },
                            None => {},
                        }
                        i = i + 1;
                    }
                    proof {
                        assert(vas.skip(i as int).len() == 0 || vps.skip(i as int).len() == 0);
                    }
                    None
                },
                _ => None,
            },
            _ => None,
        }
    }
}

/// Once two parameters disagree, inference stays failed.
pub proof fn lema_inferencia_fallida(
    params: Seq<SpecParametro>,
    targs: Seq<SpecTipo>,
    g: Seq<char>,
    k: nat,
    k2: nat,
)
    requires
        k <= k2,
        inferencia_tipo(params, targs, g, k) is None,
    ensures
        inferencia_tipo(params, targs, g, k2) is None,
    decreases k2 - k,
{
    if k < k2 {
        lema_inferencia_fallida(params, targs, g, k, (k2 - 1) as nat);
    }
}

pub open spec fn vista_parametros(s: Seq<Parametro>) -> Seq<SpecParametro> {
    s.map_values(|p: Parametro| p@)
}

impl Codegen {
    /// Infers the concrete type of the generic parameter `nombre_generico` from
    /// `tipos_args`, the types of the arguments passed for `parametros`.
    pub fn inferir_tipo_generico(
        &self,
        parametros: &Vec<Parametro>,
        tipos_args: &Vec<Tipo>,
        nombre_generico: &str,
    ) -> (r: Option<Tipo>)
        ensures
            vista_tipo_opt(r) == tipo_generico_inferido(
                vista_parametros(parametros@),
                vista_tipos(tipos_args@),
                nombre_generico@,
            ),
    {
        let ghost ps = vista_parametros(parametros@);
        let ghost ts = vista_tipos(tipos_args@);
        proof {
            lema_vista_tipos(tipos_args@);
        }
        let mut resultado: Option<Tipo> = None;
        let mut i: usize = 0;
        while i < parametros.len() && i < tipos_args.len()
            invariant
                i <= parametros.len(),
                i <= tipos_args.len(),
                ps == vista_parametros(parametros@),
                ts == vista_tipos(tipos_args@),
                ts.len() == tipos_args@.len(),
                forall|j: int| 0 <= j < tipos_args@.len() ==> #[trigger] ts[j] == vista_tipo(tipos_args@[j]),
                inferencia_tipo(ps, ts, nombre_generico@, i as nat) == Some(vista_tipo_opt(resultado)),
            decreases parametros.len() - i,
        {
            assert(ps[i as int] == parametros@[i as int]@);
            if self.tipo_contiene_generico(&parametros[i].tipo, nombre_generico) {
                match self.extraer_tipo_generico(&tipos_args[i], nombre_generico, &parametros[i].tipo) {
                    Some(t) => {
                        match &resultado {
                            Some(prev) => {
                                if !tipos_iguales(prev, &t) {
                                    proof {
                                        let n = min_nat(ps.len(), ts.len());
                                        lema_inferencia_fallida(ps, ts, nombre_generico@, (i + 1) as nat, n);
                                    }
                                    return None;
                                }
                            },
                            None => {
                                resultado = Some(t);
                            },
                        }
                    },
                    None => {},
                }
            }
            i = i + 1;
        }
        resultado
    }

    /// Infers the value of the const generic `nombre_generico` from
    /// `tipos_args`, the types of the arguments passed for `parametros`.
    pub fn inferir_const_generico(
        &self,
        parametros: &Vec<Parametro>,
        tipos_args: &Vec<Tipo>,
        nombre_generico: &str,
    ) -> (r: Option<usize>)
        ensures
            r == const_generico_inferido(
                vista_parametros(parametros@),
                vista_tipos(tipos_args@),
                nombre_generico@,
            ),
    {
        let ghost ps = vista_parametros(parametros@);
        let ghost ts = vista_tipos(tipos_args@);
        proof {
            lema_vista_tipos(tipos_args@);
            assert(ps.skip(0) =~= ps);
            assert(ts.skip(0) =~= ts);
        }
        let mut i: usize = 0;
        while i < parametros.len() && i < tipos_args.len()
            invariant
                i <= parametros.len(),
                i <= tipos_args.len(),
                ps == vista_parametros(parametros@),
                ts == vista_tipos(tipos_args@),
                ts.len() == tipos_args@.len(),
                forall|j: int| 0 <= j < tipos_args@.len() ==> #[trigger] ts[j] == vista_tipo(tipos_args@[j]),
                const_generico_inferido(ps, ts, nombre_generico@) == const_generico_inferido(
                    ps.skip(i as int),
                    ts.skip(i as int),
                    nombre_generico@,
                ),
            decreases parametros.len() - i,
        {
            proof {
                assert(ps.skip(i as int)[0] == parametros@[i as int]@);
                assert(ts.skip(i as int)[0] == ts[i as int]);
                assert(ps.skip(i as int).drop_first() =~= ps.skip(i + 1));
                assert(ts.skip(i as int).drop_first() =~= ts.skip(i + 1));
            }
            if self.tipo_contiene_generico(&parametros[i].tipo, nombre_generico) {
                match self.extraer_valor_generico(&tipos_args[i], nombre_generico) {
                    Some(valor) => {
                        return Some(valor);
                    },
                    None => {},
                }
            }
            i = i + 1;
        }
        proof {
            assert(ps.skip(i as int).len() == 0 || ts.skip(i as int).len() == 0);
        }
        None
    }
}

impl Codegen {
    fn parte_nombre_exec(
        &self,
        gp: &ParametroGenerico,
        sust_consts: &Vec<(String, String)>,
        sust_tipos: &Vec<(String, Tipo)>,
    ) -> (r: String)
        ensures
            r@ == parte_nombre(gp@, vista_pares(sust_consts@), vista_pares(sust_tipos@)),
    {
        if gp.tipo.is_some() {
            match posicion(sust_consts, gp.nombre.as_str()) {
                Some(j) => sust_consts[j].1.clone(),
                None => gp.nombre.clone(),
            }
        } else {
            match posicion(sust_tipos, gp.nombre.as_str()) {
                Some(j) => self.nombre_tipo_instancia(&sust_tipos[j].1),
                None => gp.nombre.clone(),
            }
        }
    }

    /// Creates the specialization of `func` for the given values of its const
    /// generics and types of its type generics.
    pub fn especializar_funcion(
        &mut self,
        func: &FuncionDecl,
        sust_consts: &Vec<(String, String)>,
        sust_tipos: &Vec<(String, Tipo)>,
    ) -> (r: FuncionDecl)
        ensures
            r@ == funcion_especializada(func@, vista_pares(sust_consts@), vista_pares(sust_tipos@)),
            *final(self) == *old(self),
    {
        let ghost sc = vista_pares(sust_consts@);
        let ghost st = vista_pares(sust_tipos@);
        let ghost gps = func@.parametros_genericos;
        let mut partes = String::new();
        let mut i: usize = 0;
        while i < func.parametros_genericos.len()
            invariant
                i <= func.parametros_genericos.len(),
                gps == func@.parametros_genericos,
                sc == vista_pares(sust_consts@),
                st == vista_pares(sust_tipos@),
                partes@ == partes_unidas(gps.take(i as int), sc, st),
            decreases func.parametros_genericos.len() - i,
        {
            let parte = self.parte_nombre_exec(&func.parametros_genericos[i], sust_consts, sust_tipos);
            proof {
                assert(gps.take(i + 1).drop_last() =~= gps.take(i as int));
                assert(gps.take(i + 1).last() == func.parametros_genericos@[i as int]@);
            }
            if i > 0 {
                partes.append("_");
            }
            partes.append(parte.as_str());
            i = i + 1;
        }
        assert(gps.take(gps.len() as int) =~= gps);
        let mut nombre = func.nombre.clone();
        nombre.append("_");
        nombre.append(partes.as_str());

        let mut parametros: Vec<Parametro> = Vec::new();
        let mut k: usize = 0;
        while k < func.parametros.len()
            invariant
                k <= func.parametros.len(),
                sc == vista_pares(sust_consts@),
                st == vista_pares(sust_tipos@),
                parametros@.len() == k,
                forall|j: int|
                    0 <= j < k ==> (#[trigger] parametros@[j])@ == (SpecParametro {
                        articulo: func.parametros@[j]@.articulo,
                        nombre: func.parametros@[j]@.nombre,
                        tipo: tipo_sustituido(func.parametros@[j]@.tipo, sc, st),
                    }),
            decreases func.parametros.len() - k,
        {
            let p = Parametro {
                articulo: func.parametros[k].articulo,
                nombre: func.parametros[k].nombre.clone(),
                tipo: self.tipo_con_sustitucion(&func.parametros[k].tipo, sust_consts, sust_tipos),
            };
            parametros.push(p);
            k = k + 1;
        }
        let r = FuncionDecl {
            nombre,
            parametros_genericos: Vec::new(),
            parametros,
            retorno: self.tipo_opt_con_sustitucion(&func.retorno, sust_consts, sust_tipos),
            cuerpo: self.bloque_con_sustitucion(&func.cuerpo, sust_consts, sust_tipos),
            es_insegura: func.es_insegura,
            es_vectorizable: func.es_vectorizable,
            nivel_verificacion: func.nivel_verificacion,
            efecto: clonar_texto_opt(&func.efecto),
            visibilidad: func.visibilidad,
            es_futuro: func.es_futuro,
            span: func.span,
        };
        proof {
            let esperado = funcion_especializada(func@, sc, st);
            assert(r@.parametros =~= esperado.parametros);
            assert(r@.parametros_genericos =~= esperado.parametros_genericos);
        }
        r
    }
}

// ───────────────────────────── laws ─────────────────────────────

pub open spec fn sin_consts() -> Seq<(Seq<char>, Seq<char>)> {
    Seq::empty()
}

pub open spec fn sin_tipos() -> Seq<(Seq<char>, SpecTipo)> {
    Seq::empty()
}

/// Substituting nothing leaves a type as it is.
pub proof fn ley_tipo_sin_sustitucion(t: SpecTipo)
    ensures
        tipo_sustituido(t, sin_consts(), sin_tipos()) == t,
    decreases t,
{
    match t {
        SpecTipo::ArrayGenerico(e, _) => ley_tipo_sin_sustitucion(*e),
        SpecTipo::Array(e, _) => ley_tipo_sin_sustitucion(*e),
        SpecTipo::Vector(e) => ley_tipo_sin_sustitucion(*e),
        SpecTipo::Conjunto(e) => ley_tipo_sin_sustitucion(*e),
        SpecTipo::Diccionario(k, v) => {
            ley_tipo_sin_sustitucion(*k);
            ley_tipo_sin_sustitucion(*v);
        },
        SpecTipo::Resultado(t, e) => {
            ley_tipo_sin_sustitucion(*t);
            ley_tipo_sin_sustitucion(*e);
        },
        SpecTipo::Puntero(e) => ley_tipo_sin_sustitucion(*e),
        SpecTipo::Referencia(e) => ley_tipo_sin_sustitucion(*e),
        SpecTipo::ReferenciaMut(e) => ley_tipo_sin_sustitucion(*e),
        SpecTipo::ReferenciaConLifetime(_, e) => ley_tipo_sin_sustitucion(*e),
        SpecTipo::ReferenciaMutConLifetime(_, e) => ley_tipo_sin_sustitucion(*e),
        SpecTipo::ReferenciaSelf(e) => ley_tipo_sin_sustitucion(*e),
        SpecTipo::ReferenciaMutSelf(e) => ley_tipo_sin_sustitucion(*e),
        SpecTipo::NombreGenerico(_, args) => lema_tipos_sin_sustitucion(args),
        _ => {},
    }
}

proof fn lema_tipos_sin_sustitucion(s: Seq<SpecTipo>)
    ensures
        tipos_sustituidos(s, sin_consts(), sin_tipos()) == s,
    decreases s,
{
    if s.len() > 0 {
        lema_tipos_sin_sustitucion(s.drop_last());
        ley_tipo_sin_sustitucion(s.last());
        assert(s.drop_last().push(s.last()) =~= s);
    }
}

/// Substituting no constants leaves an expression as it is.
pub proof fn ley_expresion_sin_sustitucion(e: SpecExpresion)
    ensures
        expresion_sustituida(e, sin_consts()) == e,
    decreases e,
{
    match e {
        SpecExpresion::Binaria(a, _, b, _) => {
            ley_expresion_sin_sustitucion(*a);
            ley_expresion_sin_sustitucion(*b);
        },
        SpecExpresion::Unaria(_, a, _) => ley_expresion_sin_sustitucion(*a),
        SpecExpresion::Llamada(l) => lema_expresiones_sin_sustitucion(l.argumentos),
        SpecExpresion::AccesoArray(a, i, _) => {
            ley_expresion_sin_sustitucion(*a);
            ley_expresion_sin_sustitucion(*i);
        },
        SpecExpresion::LiteralArray(v, _) => lema_expresiones_sin_sustitucion(v),
        SpecExpresion::ArrayRelleno(a, _, _) => ley_expresion_sin_sustitucion(*a),
        SpecExpresion::InicializacionStruct(_, c, _) => lema_inicializaciones_sin_sustitucion(c),
        SpecExpresion::AccesoCampo(a, _, _) => ley_expresion_sin_sustitucion(*a),
        SpecExpresion::ConstructorEnum(_, _, a, _) => lema_expresiones_sin_sustitucion(a),
        SpecExpresion::EsVariante(a, _, _, _, _) => ley_expresion_sin_sustitucion(*a),
        _ => {},
    }
}

proof fn lema_expresiones_sin_sustitucion(s: Seq<SpecExpresion>)
    ensures
        expresiones_sustituidas(s, sin_consts()) == s,
    decreases s,
{
    if s.len() > 0 {
        lema_expresiones_sin_sustitucion(s.drop_last());
        ley_expresion_sin_sustitucion(s.last());
        assert(s.drop_last().push(s.last()) =~= s);
    }
}

proof fn lema_inicializaciones_sin_sustitucion(s: Seq<(Seq<char>, SpecExpresion)>)
    ensures
        inicializaciones_sustituidas(s, sin_consts()) == s,
    decreases s,
{
    if s.len() > 0 {
        lema_inicializaciones_sin_sustitucion(s.drop_last());
        ley_expresion_sin_sustitucion(s.last().1);
        assert(s.drop_last().push(s.last()) =~= s);
    }
}

/// Substituting nothing leaves a statement as it is.
pub proof fn ley_sentencia_sin_sustitucion(st: SpecSentencia)
    ensures
        sentencia_sustituida(st, sin_consts(), sin_tipos()) == st,
    decreases st,
{
    match st {
        SpecSentencia::Expresion(e) => ley_expresion_sin_sustitucion(e),
        SpecSentencia::DeclaracionVariable(d) => {
            ley_expresion_sin_sustitucion(d.valor);
            if let Some(t) = d.tipo {
                ley_tipo_sin_sustitucion(t);
            }
        },
        SpecSentencia::Asignacion(a) => ley_expresion_sin_sustitucion(a.valor),
        SpecSentencia::Retornar(e, _) => {
            if let Some(e) = e {
                ley_expresion_sin_sustitucion(e);
            }
        },
        SpecSentencia::Condicional(c) => {
            ley_expresion_sin_sustitucion(c.condicion);
            lema_sentencias_sin_sustitucion(c.bloque_entonces.sentencias);
            if let Some(b) = c.bloque_sino {
                lema_sentencias_sin_sustitucion(b.sentencias);
            }
        },
        SpecSentencia::BucleMientras(b) => {
            ley_expresion_sin_sustitucion(b.condicion);
            lema_sentencias_sin_sustitucion(b.bloque.sentencias);
        },
        SpecSentencia::BuclePara(b) => {
            ley_expresion_sin_sustitucion(b.iterable);
            lema_sentencias_sin_sustitucion(b.bloque.sentencias);
        },
        SpecSentencia::Region { cuerpo, .. } => lema_sentencias_sin_sustitucion(cuerpo),
        SpecSentencia::Seleccionar(sel) => lema_ramas_sin_sustitucion(sel.ramas),
        SpecSentencia::ConExecutor { cuerpo, .. } => lema_sentencias_sin_sustitucion(cuerpo),
        _ => {},
    }
}

proof fn lema_sentencias_sin_sustitucion(s: Seq<SpecSentencia>)
    ensures
        sentencias_sustituidas(s, sin_consts(), sin_tipos()) == s,
    decreases s,
{
    if s.len() > 0 {
        lema_sentencias_sin_sustitucion(s.drop_last());
        ley_sentencia_sin_sustitucion(s.last());
        assert(s.drop_last().push(s.last()) =~= s);
    }
}

proof fn lema_ramas_sin_sustitucion(s: Seq<SpecRamaSeleccionar>)
    ensures
        ramas_sustituidas(s, sin_consts(), sin_tipos()) == s,
    decreases s,
{
    if s.len() > 0 {
        lema_ramas_sin_sustitucion(s.drop_last());
        lema_sentencias_sin_sustitucion(s.last().cuerpo.sentencias);
        assert(s.drop_last().push(s.last()) =~= s);
    }
}

/// Specializing without substitutions changes only the function's name, now
/// followed by the names of its generic parameters, and drops those parameters.
pub proof fn ley_especializar_sin_sustitucion(f: SpecFuncionDecl)
    ensures
        funcion_especializada(f, sin_consts(), sin_tipos()) == (SpecFuncionDecl {
            nombre: f.nombre + "_"@ + partes_unidas(f.parametros_genericos, sin_consts(), sin_tipos()),
            parametros_genericos: Seq::empty(),
            ..f
        }),
{
    let g = funcion_especializada(f, sin_consts(), sin_tipos());
    assert forall|i: int| 0 <= i < f.parametros.len() implies #[trigger] g.parametros[i] == f.parametros[i] by {
        ley_tipo_sin_sustitucion(f.parametros[i].tipo);
    }
    assert(g.parametros =~= f.parametros);
    if let Some(t) = f.retorno {
        ley_tipo_sin_sustitucion(t);
    }
    lema_sentencias_sin_sustitucion(f.cuerpo.sentencias);
}

/// A const generic bound to the decimal rendering of `n` (as code generation
/// binds it) turns an identifier of that name into the literal `n`.
pub proof fn ley_sustitucion_const_decimal(x: Seq<char>, span: crate::ast::Span, n: u64)
    requires
        n <= i64::MAX,
    ensures
        expresion_sustituida(SpecExpresion::Identificador(x, span), seq![(x, decimal(n as nat))]) == SpecExpresion::Literal(
            SpecLiteral::Entero(n as i64, span),
        ),
{
    crate::texto::lema_leer_decimal(n as nat);
    let sc = seq![(x, decimal(n as nat))];
    assert(buscar(sc, x) == Some(decimal(n as nat)));
}

/// A generic array length bound to the decimal rendering of `n` turns the
/// generic array type into an array of length `n` of the substituted element
/// type.
pub proof fn ley_sustitucion_longitud_decimal(
    e: SpecTipo,
    x: Seq<char>,
    n: usize,
    st: Seq<(Seq<char>, SpecTipo)>,
)
    ensures
        tipo_sustituido(SpecTipo::ArrayGenerico(Box::new(e), x), seq![(x, decimal(n as nat))], st) == SpecTipo::Array(
            Box::new(tipo_sustituido(e, seq![(x, decimal(n as nat))], st)),
            n,
        ),
{
    crate::texto::lema_leer_decimal(n as nat);
    let sc = seq![(x, decimal(n as nat))];
    assert(buscar(sc, x) == Some(decimal(n as nat)));
}

/// `b` has the shape of `a`: the same kind of statement, `romper` and
/// `continuar` untouched, and nested blocks of the same lengths whose
/// statements have, in turn, the same shapes.
pub open spec fn misma_forma(a: SpecSentencia, b: SpecSentencia) -> bool
    decreases a,
{
    match a {
        SpecSentencia::Expresion(_) => b is Expresion,
        SpecSentencia::DeclaracionVariable(_) => b is DeclaracionVariable,
        SpecSentencia::Asignacion(_) => b is Asignacion,
        SpecSentencia::Retornar(_, _) => b is Retornar,
        SpecSentencia::Romper(_) => b == a,
        SpecSentencia::Continuar(_) => b == a,
        SpecSentencia::Condicional(c) => match b {
            SpecSentencia::Condicional(d) => mismas_formas(c.bloque_entonces.sentencias, d.bloque_entonces.sentencias)
                && match c.bloque_sino {
                Some(x) => match d.bloque_sino {
                    Some(y) => mismas_formas(x.sentencias, y.sentencias),
                    None => false,
                },
                None => d.bloque_sino is None,
            },
            _ => false,
        },
        SpecSentencia::BucleMientras(l) => match b {
            SpecSentencia::BucleMientras(m) => mismas_formas(l.bloque.sentencias, m.bloque.sentencias),
            _ => false,
        },
        SpecSentencia::BuclePara(l) => match b {
            SpecSentencia::BuclePara(m) => mismas_formas(l.bloque.sentencias, m.bloque.sentencias),
            _ => false,
        },
        SpecSentencia::Region { cuerpo, .. } => match b {
            SpecSentencia::Region { cuerpo: c2, .. } => mismas_formas(cuerpo, c2),
            _ => false,
        },
        SpecSentencia::Seleccionar(sel) => match b {
            SpecSentencia::Seleccionar(s2) => mismas_ramas(sel.ramas, s2.ramas),
            _ => false,
        },
        SpecSentencia::ConExecutor { cuerpo, .. } => match b {
            SpecSentencia::ConExecutor { cuerpo: c2, .. } => mismas_formas(cuerpo, c2),
            _ => false,
        },
    }
}

/// Two lists of statements of the same length whose statements, in order,
/// have the same shapes.
pub open spec fn mismas_formas(a: Seq<SpecSentencia>, b: Seq<SpecSentencia>) -> bool
    decreases a,
{
    if a.len() == 0 {
        b.len() == 0
    } else {
        b.len() == a.len() && mismas_formas(a.drop_last(), b.drop_last()) && misma_forma(a.last(), b.last())
    }
}

/// Two lists of branches of the same length whose bodies have the same shapes.
pub open spec fn mismas_ramas(a: Seq<SpecRamaSeleccionar>, b: Seq<SpecRamaSeleccionar>) -> bool
    decreases a,
{
    if a.len() == 0 {
        b.len() == 0
    } else {
        b.len() == a.len() && mismas_ramas(a.drop_last(), b.drop_last()) && mismas_formas(
            a.last().cuerpo.sentencias,
            b.last().cuerpo.sentencias,
        )
    }
}

/// Substitution keeps the shape of a statement, whatever the substitutions:
/// each statement keeps its kind and each nested block its length.
pub proof fn ley_sustitucion_conserva_forma(
    s: SpecSentencia,
    sc: Seq<(Seq<char>, Seq<char>)>,
    st: Seq<(Seq<char>, SpecTipo)>,
)
    ensures
        misma_forma(s, sentencia_sustituida(s, sc, st)),
    decreases s,
{
    match s {
        SpecSentencia::Condicional(c) => {
            lema_sentencias_conservan_forma(c.bloque_entonces.sentencias, sc, st);
            if let Some(b) = c.bloque_sino {
                lema_sentencias_conservan_forma(b.sentencias, sc, st);
            }
        },
        SpecSentencia::BucleMientras(b) => lema_sentencias_conservan_forma(b.bloque.sentencias, sc, st),
        SpecSentencia::BuclePara(b) => lema_sentencias_conservan_forma(b.bloque.sentencias, sc, st),
        SpecSentencia::Region { cuerpo, .. } => lema_sentencias_conservan_forma(cuerpo, sc, st),
        SpecSentencia::Seleccionar(sel) => lema_ramas_conservan_forma(sel.ramas, sc, st),
        SpecSentencia::ConExecutor { cuerpo, .. } => lema_sentencias_conservan_forma(cuerpo, sc, st),
        _ => {},
    }
}

proof fn lema_sentencias_conservan_forma(
    s: Seq<SpecSentencia>,
    sc: Seq<(Seq<char>, Seq<char>)>,
    st: Seq<(Seq<char>, SpecTipo)>,
)
    ensures
        mismas_formas(s, sentencias_sustituidas(s, sc, st)),
    decreases s,
{
    if s.len() > 0 {
        lema_sentencias_conservan_forma(s.drop_last(), sc, st);
        ley_sustitucion_conserva_forma(s.last(), sc, st);
        lema_longitud_sustituidas(s, sc, st);
        let r = sentencias_sustituidas(s, sc, st);
        assert(r.drop_last() =~= sentencias_sustituidas(s.drop_last(), sc, st));
    }
}

proof fn lema_longitud_sustituidas(
    s: Seq<SpecSentencia>,
    sc: Seq<(Seq<char>, Seq<char>)>,
    st: Seq<(Seq<char>, SpecTipo)>,
)
    ensures
        sentencias_sustituidas(s, sc, st).len() == s.len(),
    decreases s.len(),
{
    if s.len() > 0 {
        lema_longitud_sustituidas(s.drop_last(), sc, st);
    }
}

proof fn lema_ramas_conservan_forma(
    s: Seq<SpecRamaSeleccionar>,
    sc: Seq<(Seq<char>, Seq<char>)>,
    st: Seq<(Seq<char>, SpecTipo)>,
)
    ensures
        mismas_ramas(s, ramas_sustituidas(s, sc, st)),
    decreases s,
{
    if s.len() > 0 {
        lema_ramas_conservan_forma(s.drop_last(), sc, st);
        lema_sentencias_conservan_forma(s.last().cuerpo.sentencias, sc, st);
        lema_longitud_ramas(s, sc, st);
        let r = ramas_sustituidas(s, sc, st);
        assert(r.drop_last() =~= ramas_sustituidas(s.drop_last(), sc, st));
    }
}

proof fn lema_longitud_ramas(
    s: Seq<SpecRamaSeleccionar>,
    sc: Seq<(Seq<char>, Seq<char>)>,
    st: Seq<(Seq<char>, SpecTipo)>,
)
    ensures
        ramas_sustituidas(s, sc, st).len() == s.len(),
    decreases s.len(),
{
    if s.len() > 0 {
        lema_longitud_ramas(s.drop_last(), sc, st);
    }
}

/// Whether `t` mentions no generic parameter at all: neither a generic type
/// nor an array of generic length, anywhere inside it.
pub open spec fn sin_genericos(t: SpecTipo) -> bool
    decreases t,
{
    match t {
        SpecTipo::Generico(_) => false,
        SpecTipo::ArrayGenerico(_, _) => false,
        SpecTipo::Array(e, _) => sin_genericos(*e),
        SpecTipo::Vector(e) => sin_genericos(*e),
        SpecTipo::Conjunto(e) => sin_genericos(*e),
        SpecTipo::Diccionario(k, v) => sin_genericos(*k) && sin_genericos(*v),
        SpecTipo::Resultado(t, e) => sin_genericos(*t) && sin_genericos(*e),
        SpecTipo::Puntero(e) => sin_genericos(*e),
        SpecTipo::Referencia(e) => sin_genericos(*e),
        SpecTipo::ReferenciaMut(e) => sin_genericos(*e),
        SpecTipo::ReferenciaConLifetime(_, e) => sin_genericos(*e),
        SpecTipo::ReferenciaMutConLifetime(_, e) => sin_genericos(*e),
        SpecTipo::ReferenciaSelf(e) => sin_genericos(*e),
        SpecTipo::ReferenciaMutSelf(e) => sin_genericos(*e),
        SpecTipo::NombreGenerico(_, args) => todos_sin_genericos(args),
        _ => true,
    }
}

pub open spec fn todos_sin_genericos(s: Seq<SpecTipo>) -> bool
    decreases s,
{
    if s.len() == 0 {
        true
    } else {
        todos_sin_genericos(s.drop_last()) && sin_genericos(s.last())
    }
}

/// A type without generic parameters is left as it is by any substitution.
proof fn lema_sin_genericos_fijo(t: SpecTipo, sc: Seq<(Seq<char>, Seq<char>)>, st: Seq<(Seq<char>, SpecTipo)>)
    requires
        sin_genericos(t),
    ensures
        tipo_sustituido(t, sc, st) == t,
    decreases t,
{
    match t {
        SpecTipo::Array(e, _) => lema_sin_genericos_fijo(*e, sc, st),
        SpecTipo::Vector(e) => lema_sin_genericos_fijo(*e, sc, st),
        SpecTipo::Conjunto(e) => lema_sin_genericos_fijo(*e, sc, st),
        SpecTipo::Diccionario(k, v) => {
            lema_sin_genericos_fijo(*k, sc, st);
            lema_sin_genericos_fijo(*v, sc, st);
        },
        SpecTipo::Resultado(a, e) => {
            lema_sin_genericos_fijo(*a, sc, st);
            lema_sin_genericos_fijo(*e, sc, st);
        },
        SpecTipo::Puntero(e) => lema_sin_genericos_fijo(*e, sc, st),
        SpecTipo::Referencia(e) => lema_sin_genericos_fijo(*e, sc, st),
        SpecTipo::ReferenciaMut(e) => lema_sin_genericos_fijo(*e, sc, st),
        SpecTipo::ReferenciaConLifetime(_, e) => lema_sin_genericos_fijo(*e, sc, st),
        SpecTipo::ReferenciaMutConLifetime(_, e) => lema_sin_genericos_fijo(*e, sc, st),
        SpecTipo::ReferenciaSelf(e) => lema_sin_genericos_fijo(*e, sc, st),
        SpecTipo::ReferenciaMutSelf(e) => lema_sin_genericos_fijo(*e, sc, st),
        SpecTipo::NombreGenerico(_, args) => lema_todos_sin_genericos_fijos(args, sc, st),
        _ => {},
    }
}

proof fn lema_todos_sin_genericos_fijos(
    s: Seq<SpecTipo>,
    sc: Seq<(Seq<char>, Seq<char>)>,
    st: Seq<(Seq<char>, SpecTipo)>,
)
    requires
        todos_sin_genericos(s),
    ensures
        tipos_sustituidos(s, sc, st) == s,
    decreases s,
{
    if s.len() > 0 {
        lema_todos_sin_genericos_fijos(s.drop_last(), sc, st);
        lema_sin_genericos_fijo(s.last(), sc, st);
        assert(s.drop_last().push(s.last()) =~= s);
    }
}

/// What a lookup finds is one of the values of the list.
proof fn lema_buscar_valor<X>(s: Seq<(Seq<char>, X)>, k: Seq<char>)
    requires
        buscar(s, k) is Some,
    ensures
        exists|i: int| 0 <= i < s.len() && s[i].1 == buscar(s, k)->Some_0,
    decreases s.len(),
{
    if s[0].0 != k {
        lema_buscar_valor(s.drop_first(), k);
        let i = choose|i: int| 0 <= i < s.drop_first().len() && s.drop_first()[i].1 == buscar(s, k)->Some_0;
        assert(s[i + 1] == s.drop_first()[i]);
    }
}

/// One substitution suffices: when the types bound to the generic parameters
/// themselves mention none, substituting again changes nothing.
pub proof fn ley_sustitucion_idempotente(
    t: SpecTipo,
    sc: Seq<(Seq<char>, Seq<char>)>,
    st: Seq<(Seq<char>, SpecTipo)>,
)
    requires
        forall|i: int| 0 <= i < st.len() ==> sin_genericos(#[trigger] st[i].1),
    ensures
        tipo_sustituido(tipo_sustituido(t, sc, st), sc, st) == tipo_sustituido(t, sc, st),
    decreases t,
{
    match t {
        SpecTipo::Generico(n) => {
            if buscar(st, n) is Some {
                lema_buscar_valor(st, n);
                lema_sin_genericos_fijo(buscar(st, n)->Some_0, sc, st);
            }
        },
        SpecTipo::ArrayGenerico(e, _) => ley_sustitucion_idempotente(*e, sc, st),
        SpecTipo::Array(e, _) => ley_sustitucion_idempotente(*e, sc, st),
        SpecTipo::Vector(e) => ley_sustitucion_idempotente(*e, sc, st),
        SpecTipo::Conjunto(e) => ley_sustitucion_idempotente(*e, sc, st),
        SpecTipo::Diccionario(k, v) => {
            ley_sustitucion_idempotente(*k, sc, st);
            ley_sustitucion_idempotente(*v, sc, st);
        },
        SpecTipo::Resultado(a, e) => {
            ley_sustitucion_idempotente(*a, sc, st);
            ley_sustitucion_idempotente(*e, sc, st);
        },
        SpecTipo::Puntero(e) => ley_sustitucion_idempotente(*e, sc, st),
        SpecTipo::Referencia(e) => ley_sustitucion_idempotente(*e, sc, st),
        SpecTipo::ReferenciaMut(e) => ley_sustitucion_idempotente(*e, sc, st),
        SpecTipo::ReferenciaConLifetime(_, e) => ley_sustitucion_idempotente(*e, sc, st),
        SpecTipo::ReferenciaMutConLifetime(_, e) => ley_sustitucion_idempotente(*e, sc, st),
        SpecTipo::ReferenciaSelf(e) => ley_sustitucion_idempotente(*e, sc, st),
        SpecTipo::ReferenciaMutSelf(e) => ley_sustitucion_idempotente(*e, sc, st),
        SpecTipo::NombreGenerico(_, args) => lema_tipos_idempotentes(args, sc, st),
        _ => {},
    }
}

proof fn lema_tipos_idempotentes(s: Seq<SpecTipo>, sc: Seq<(Seq<char>, Seq<char>)>, st: Seq<(Seq<char>, SpecTipo)>)
    requires
        forall|i: int| 0 <= i < st.len() ==> sin_genericos(#[trigger] st[i].1),
    ensures
        tipos_sustituidos(tipos_sustituidos(s, sc, st), sc, st) == tipos_sustituidos(s, sc, st),
    decreases s,
{
    if s.len() > 0 {
        lema_tipos_idempotentes(s.drop_last(), sc, st);
        ley_sustitucion_idempotente(s.last(), sc, st);
        let r = tipos_sustituidos(s, sc, st);
        assert(r.drop_last() =~= tipos_sustituidos(s.drop_last(), sc, st));
        assert(r.last() == tipo_sustituido(s.last(), sc, st));
    }
}

/// Whether the generic type `g` occurs in `t` as a type (not as the length of
/// an array), looking through every type constructor.
pub open spec fn menciona_tipo(t: SpecTipo, g: Seq<char>) -> bool
    decreases t,
{
    match t {
        SpecTipo::Generico(n) => n == g,
        SpecTipo::ArrayGenerico(e, _) => menciona_tipo(*e, g),
        SpecTipo::Array(e, _) => menciona_tipo(*e, g),
        SpecTipo::Vector(e) => menciona_tipo(*e, g),
        SpecTipo::Conjunto(e) => menciona_tipo(*e, g),
        SpecTipo::Puntero(e) => menciona_tipo(*e, g),
        SpecTipo::Referencia(e) => menciona_tipo(*e, g),
        SpecTipo::ReferenciaMut(e) => menciona_tipo(*e, g),
        SpecTipo::ReferenciaConLifetime(_, e) => menciona_tipo(*e, g),
        SpecTipo::ReferenciaMutConLifetime(_, e) => menciona_tipo(*e, g),
        SpecTipo::ReferenciaSelf(e) => menciona_tipo(*e, g),
        SpecTipo::ReferenciaMutSelf(e) => menciona_tipo(*e, g),
        SpecTipo::Diccionario(k, v) => menciona_tipo(*k, g) || menciona_tipo(*v, g),
        SpecTipo::Resultado(a, e) => menciona_tipo(*a, g) || menciona_tipo(*e, g),
        SpecTipo::NombreGenerico(_, args) => exists|i: int| 0 <= i < args.len() && menciona_tipo(#[trigger] args[i], g),
        _ => false,
    }
}

/// Whether the length of every array of `t` with a generic length is bound in
/// `sc` to a value that reads as a number, so that substitution makes it a
/// plain array.
pub open spec fn longitudes_resueltas(t: SpecTipo, sc: Seq<(Seq<char>, Seq<char>)>) -> bool
    decreases t,
{
    match t {
        SpecTipo::ArrayGenerico(e, n) => match buscar(sc, n) {
            Some(v) => lectura_usize(v) is Some && longitudes_resueltas(*e, sc),
            None => false,
        },
        SpecTipo::Array(e, _) => longitudes_resueltas(*e, sc),
        SpecTipo::Vector(e) => longitudes_resueltas(*e, sc),
        SpecTipo::Conjunto(e) => longitudes_resueltas(*e, sc),
        SpecTipo::Puntero(e) => longitudes_resueltas(*e, sc),
        SpecTipo::Referencia(e) => longitudes_resueltas(*e, sc),
        SpecTipo::ReferenciaMut(e) => longitudes_resueltas(*e, sc),
        SpecTipo::ReferenciaConLifetime(_, e) => longitudes_resueltas(*e, sc),
        SpecTipo::ReferenciaMutConLifetime(_, e) => longitudes_resueltas(*e, sc),
        SpecTipo::ReferenciaSelf(e) => longitudes_resueltas(*e, sc),
        SpecTipo::ReferenciaMutSelf(e) => longitudes_resueltas(*e, sc),
        SpecTipo::Diccionario(k, v) => longitudes_resueltas(*k, sc) && longitudes_resueltas(*v, sc),
        SpecTipo::Resultado(a, e) => longitudes_resueltas(*a, sc) && longitudes_resueltas(*e, sc),
        SpecTipo::NombreGenerico(_, args) => forall|i: int|
            0 <= i < args.len() ==> longitudes_resueltas(#[trigger] args[i], sc),
        _ => true,
    }
}

/// Nothing is extracted for `g` from a parameter type in which `g` does not
/// occur as a type.
proof fn lema_extraccion_ausente(x: SpecTipo, g: Seq<char>, q: SpecTipo)
    requires
        !menciona_tipo(q, g),
    ensures
        tipo_extraido(x, g, q) is None,
    decreases q,
{
    match q {
        SpecTipo::Array(p, _) => if let SpecTipo::Array(a, _) = x {
            lema_extraccion_ausente(*a, g, *p);
        },
        SpecTipo::Vector(p) => if let SpecTipo::Vector(a) = x {
            lema_extraccion_ausente(*a, g, *p);
        },
        SpecTipo::Conjunto(p) => if let SpecTipo::Conjunto(a) = x {
            lema_extraccion_ausente(*a, g, *p);
        },
        SpecTipo::Puntero(p) => if let SpecTipo::Puntero(a) = x {
            lema_extraccion_ausente(*a, g, *p);
        },
        SpecTipo::Referencia(p) => if let SpecTipo::Referencia(a) = x {
            lema_extraccion_ausente(*a, g, *p);
        },
        SpecTipo::ReferenciaMut(p) => if let SpecTipo::ReferenciaMut(a) = x {
            lema_extraccion_ausente(*a, g, *p);
        },
        SpecTipo::ReferenciaConLifetime(_, p) => if let SpecTipo::ReferenciaConLifetime(_, a) = x {
            lema_extraccion_ausente(*a, g, *p);
        },
        SpecTipo::ReferenciaMutConLifetime(_, p) => if let SpecTipo::ReferenciaMutConLifetime(_, a) = x {
            lema_extraccion_ausente(*a, g, *p);
        },
        SpecTipo::ReferenciaSelf(p) => if let SpecTipo::ReferenciaSelf(a) = x {
            lema_extraccion_ausente(*a, g, *p);
        },
        SpecTipo::ReferenciaMutSelf(p) => if let SpecTipo::ReferenciaMutSelf(a) = x {
            lema_extraccion_ausente(*a, g, *p);
        },
        SpecTipo::ArrayGenerico(p, _) => if let SpecTipo::Array(a, _) = x {
            lema_extraccion_ausente(*a, g, *p);
        },
        SpecTipo::Diccionario(pk, pv) => if let SpecTipo::Diccionario(ak, av) = x {
            lema_extraccion_ausente(*ak, g, *pk);
            lema_extraccion_ausente(*av, g, *pv);
        },
        SpecTipo::Resultado(pt, pe) => if let SpecTipo::Resultado(at, ae) = x {
            lema_extraccion_ausente(*at, g, *pt);
            lema_extraccion_ausente(*ae, g, *pe);
        },
        SpecTipo::NombreGenerico(_, ps) => if let SpecTipo::NombreGenerico(_, xs) = x {
            lema_lista_ausente(xs, g, ps, q);
        },
        _ => {},
    }
}

proof fn lema_lista_ausente(xs: Seq<SpecTipo>, g: Seq<char>, ps: Seq<SpecTipo>, q: SpecTipo)
    requires
        forall|i: int| 0 <= i < ps.len() ==> !menciona_tipo(#[trigger] ps[i], g),
        q matches SpecTipo::NombreGenerico(_, qs) && ps =~= qs.skip(qs.len() - ps.len()) && ps.len() <= qs.len(),
    ensures
        extraido_en_lista(xs, g, ps) is None,
    decreases q, ps.len(),
{
    if ps.len() > 0 && xs.len() > 0 {
        let qs = q->NombreGenerico_1;
        assert(ps[0] == qs[qs.len() - ps.len()]);
        assert(decreases_to!(q => qs));
        assert(decreases_to!(qs => qs[qs.len() - ps.len()]));
        lema_extraccion_ausente(xs[0], g, ps[0]);
        assert(ps.drop_first() =~= qs.skip(qs.len() - ps.drop_first().len()));
        assert forall|i: int| 0 <= i < ps.drop_first().len() implies !menciona_tipo(#[trigger] ps.drop_first()[i], g) by {
            assert(ps.drop_first()[i] == ps[i + 1]);
        }
        lema_lista_ausente(xs.drop_first(), g, ps.drop_first(), q);
    }
}

/// The substitution of a list of types substitutes each of them.
proof fn lema_tipos_sustituidos_indice(
    s: Seq<SpecTipo>,
    sc: Seq<(Seq<char>, Seq<char>)>,
    st: Seq<(Seq<char>, SpecTipo)>,
)
    ensures
        tipos_sustituidos(s, sc, st).len() == s.len(),
        forall|i: int| 0 <= i < s.len() ==> #[trigger] tipos_sustituidos(s, sc, st)[i] == tipo_sustituido(s[i], sc, st),
    decreases s.len(),
{
    if s.len() > 0 {
        lema_tipos_sustituidos_indice(s.drop_last(), sc, st);
    }
}

/// Extraction undoes substitution: substituting `c` for the generic `g` (and
/// anything for other generics) in a parameter type in which `g` occurs as a
/// type, with every generic array length given a number, and extracting `g`
/// from the result against that parameter type, gives `c`.
pub proof fn ley_extraccion_inversa(
    p: SpecTipo,
    g: Seq<char>,
    c: SpecTipo,
    sc: Seq<(Seq<char>, Seq<char>)>,
    st: Seq<(Seq<char>, SpecTipo)>,
)
    requires
        menciona_tipo(p, g),
        longitudes_resueltas(p, sc),
        buscar(st, g) == Some(c),
    ensures
        tipo_extraido(tipo_sustituido(p, sc, st), g, p) == Some(c),
    decreases p,
{
    match p {
        SpecTipo::ArrayGenerico(e, _) => ley_extraccion_inversa(*e, g, c, sc, st),
        SpecTipo::Array(e, _) => ley_extraccion_inversa(*e, g, c, sc, st),
        SpecTipo::Vector(e) => ley_extraccion_inversa(*e, g, c, sc, st),
        SpecTipo::Conjunto(e) => ley_extraccion_inversa(*e, g, c, sc, st),
        SpecTipo::Puntero(e) => ley_extraccion_inversa(*e, g, c, sc, st),
        SpecTipo::Referencia(e) => ley_extraccion_inversa(*e, g, c, sc, st),
        SpecTipo::ReferenciaMut(e) => ley_extraccion_inversa(*e, g, c, sc, st),
        SpecTipo::ReferenciaConLifetime(_, e) => ley_extraccion_inversa(*e, g, c, sc, st),
        SpecTipo::ReferenciaMutConLifetime(_, e) => ley_extraccion_inversa(*e, g, c, sc, st),
        SpecTipo::ReferenciaSelf(e) => ley_extraccion_inversa(*e, g, c, sc, st),
        SpecTipo::ReferenciaMutSelf(e) => ley_extraccion_inversa(*e, g, c, sc, st),
        SpecTipo::Diccionario(k, v) => {
            if menciona_tipo(*k, g) {
                ley_extraccion_inversa(*k, g, c, sc, st);
            } else {
                lema_extraccion_ausente(tipo_sustituido(*k, sc, st), g, *k);
                ley_extraccion_inversa(*v, g, c, sc, st);
            }
        },
        SpecTipo::Resultado(t, e) => {
            if menciona_tipo(*t, g) {
                ley_extraccion_inversa(*t, g, c, sc, st);
            } else {
                lema_extraccion_ausente(tipo_sustituido(*t, sc, st), g, *t);
                ley_extraccion_inversa(*e, g, c, sc, st);
            }
        },
        SpecTipo::NombreGenerico(_, ps) => {
            lema_tipos_sustituidos_indice(ps, sc, st);
            let xs = tipos_sustituidos(ps, sc, st);
            assert(ps =~= ps.skip(0));
            lema_lista_inversa(xs, g, c, sc, st, ps, p);
        },
        _ => {},
    }
}

proof fn lema_lista_inversa(
    xs: Seq<SpecTipo>,
    g: Seq<char>,
    c: SpecTipo,
    sc: Seq<(Seq<char>, Seq<char>)>,
    st: Seq<(Seq<char>, SpecTipo)>,
    ps: Seq<SpecTipo>,
    q: SpecTipo,
)
    requires
        q matches SpecTipo::NombreGenerico(_, qs) && ps =~= qs.skip(qs.len() - ps.len()) && ps.len() <= qs.len(),
        xs.len() == ps.len(),
        forall|i: int| 0 <= i < ps.len() ==> #[trigger] xs[i] == tipo_sustituido(ps[i], sc, st),
        forall|i: int| 0 <= i < ps.len() ==> longitudes_resueltas(#[trigger] ps[i], sc),
        exists|i: int| 0 <= i < ps.len() && menciona_tipo(#[trigger] ps[i], g),
        buscar(st, g) == Some(c),
    ensures
        extraido_en_lista(xs, g, ps) == Some(c),
    decreases q, ps.len(),
{
    let qs = q->NombreGenerico_1;
    assert(ps[0] == qs[qs.len() - ps.len()]);
    assert(decreases_to!(q => qs));
    assert(decreases_to!(qs => qs[qs.len() - ps.len()]));
    assert(xs[0] == tipo_sustituido(ps[0], sc, st));
    if menciona_tipo(ps[0], g) {
        assert(longitudes_resueltas(ps[0], sc));
        ley_extraccion_inversa(ps[0], g, c, sc, st);
    } else {
        lema_extraccion_ausente(xs[0], g, ps[0]);
        let j = choose|j: int| 0 <= j < ps.len() && menciona_tipo(#[trigger] ps[j], g);
        assert(ps.drop_first()[j - 1] == ps[j]);
        assert(ps.drop_first() =~= qs.skip(qs.len() - ps.drop_first().len()));
        assert forall|i: int| 0 <= i < ps.drop_first().len() implies #[trigger] xs.drop_first()[i] == tipo_sustituido(
            ps.drop_first()[i],
            sc,
            st,
        ) by {
            assert(xs.drop_first()[i] == xs[i + 1]);
            assert(ps.drop_first()[i] == ps[i + 1]);
        }
        assert forall|i: int| 0 <= i < ps.drop_first().len() implies longitudes_resueltas(#[trigger] ps.drop_first()[i], sc) by {
            assert(ps.drop_first()[i] == ps[i + 1]);
        }
        lema_lista_inversa(xs.drop_first(), g, c, sc, st, ps.drop_first(), q);
    }
}

/// The outermost constructor of a type that wraps others, numbered; `None`
/// for the other types.
pub open spec fn constructor_envolvente(t: SpecTipo) -> Option<nat> {
    match t {
        SpecTipo::Vector(_) => Some(0nat),
        SpecTipo::Conjunto(_) => Some(1nat),
        SpecTipo::Puntero(_) => Some(2nat),
        SpecTipo::Referencia(_) => Some(3nat),
        SpecTipo::ReferenciaMut(_) => Some(4nat),
        SpecTipo::ReferenciaSelf(_) => Some(5nat),
        SpecTipo::ReferenciaMutSelf(_) => Some(6nat),
        SpecTipo::Array(_, _) => Some(7nat),
        SpecTipo::Diccionario(_, _) => Some(8nat),
        SpecTipo::Resultado(_, _) => Some(9nat),
        _ => None,
    }
}

/// The text that opens the instance name of a type with the outermost
/// constructor `c`: the constructor's name (`Ptr` and `Ref` in short) and `_`.
pub open spec fn prefijo_de_constructor(c: Option<nat>) -> Seq<char> {
    if c == Some(0nat) {
        "Vector_"@
    } else if c == Some(1nat) {
        "Conjunto_"@
    } else if c == Some(2nat) {
        "Ptr_"@
    } else if c == Some(3nat) {
        "Ref_"@
    } else if c == Some(4nat) {
        "RefMut_"@
    } else if c == Some(5nat) {
        "RefSelf_"@
    } else if c == Some(6nat) {
        "RefMutSelf_"@
    } else if c == Some(7nat) {
        "Array_"@
    } else if c == Some(8nat) {
        "Diccionario_"@
    } else if c == Some(9nat) {
        "Resultado_"@
    } else {
        Seq::empty()
    }
}

/// The instance name of a wrapping type opens with its constructor's prefix.
pub proof fn lema_nombre_empieza_por_constructor(t: SpecTipo)
    requires
        constructor_envolvente(t) is Some,
    ensures
        prefijo_de_constructor(constructor_envolvente(t)).len() <= nombre_instancia(t).len(),
        nombre_instancia(t).subrange(0, prefijo_de_constructor(constructor_envolvente(t)).len() as int)
            == prefijo_de_constructor(constructor_envolvente(t)),
{
    reveal_strlit("Vector_");
    reveal_strlit("Conjunto_");
    reveal_strlit("Ptr_");
    reveal_strlit("Ref_");
    reveal_strlit("RefMut_");
    reveal_strlit("RefSelf_");
    reveal_strlit("RefMutSelf_");
    reveal_strlit("Array_");
    reveal_strlit("Diccionario_");
    reveal_strlit("Resultado_");
    reveal_strlit("_");
    let p = prefijo_de_constructor(constructor_envolvente(t));
    assert(nombre_instancia(t).subrange(0, p.len() as int) =~= p);
}

/// Instance names tell the outermost constructor apart: two types whose
/// outermost constructors are different wrapping constructors (vectors,
/// sets, pointers, references, arrays, dictionaries, results) never get the
/// same instance name, so their specializations never share a key; and two
/// types with the same one-argument constructor get the same name only when
/// their element types do.
pub proof fn ley_nombres_distinguen_constructores(t: SpecTipo, u: SpecTipo)
    ensures
        constructor_envolvente(t) is Some && constructor_envolvente(u) is Some && constructor_envolvente(t)
            != constructor_envolvente(u) ==> nombre_instancia(t) != nombre_instancia(u),
        t is Conjunto && u is Conjunto && nombre_instancia(t) == nombre_instancia(u) ==> nombre_instancia(
            *t->Conjunto_0,
        ) == nombre_instancia(*u->Conjunto_0),
        t is Vector && u is Vector && nombre_instancia(t) == nombre_instancia(u) ==> nombre_instancia(
            *t->Vector_0,
        ) == nombre_instancia(*u->Vector_0),
{
    reveal_strlit("Vector_");
    reveal_strlit("Conjunto_");
    reveal_strlit("Ptr_");
    reveal_strlit("Ref_");
    reveal_strlit("RefMut_");
    reveal_strlit("RefSelf_");
    reveal_strlit("RefMutSelf_");
    reveal_strlit("Array_");
    reveal_strlit("Diccionario_");
    reveal_strlit("Resultado_");
    reveal_strlit("_");
    if constructor_envolvente(t) is Some && constructor_envolvente(u) is Some && constructor_envolvente(t)
        != constructor_envolvente(u) {
        lema_nombre_empieza_por_constructor(t);
        lema_nombre_empieza_por_constructor(u);
        let ct = constructor_envolvente(t)->Some_0;
        let cu = constructor_envolvente(u)->Some_0;
        let pt = prefijo_de_constructor(constructor_envolvente(t));
        let pu = prefijo_de_constructor(constructor_envolvente(u));
        assert forall|k: int| 0 <= k < pt.len() implies nombre_instancia(t)[k] == pt[k] by {
            assert(nombre_instancia(t).subrange(0, pt.len() as int)[k] == nombre_instancia(t)[k]);
        }
        assert forall|k: int| 0 <= k < pu.len() implies nombre_instancia(u)[k] == pu[k] by {
            assert(nombre_instancia(u).subrange(0, pu.len() as int)[k] == nombre_instancia(u)[k]);
        }
        if ct == 0 && cu == 1 {
        assert(nombre_instancia(t)[0] != nombre_instancia(u)[0]);
    } else if ct == 0 && cu == 2 {
        assert(nombre_instancia(t)[0] != nombre_instancia(u)[0]);
    } else if ct == 0 && cu == 3 {
        assert(nombre_instancia(t)[0] != nombre_instancia(u)[0]);
    } else if ct == 0 && cu == 4 {
        assert(nombre_instancia(t)[0] != nombre_instancia(u)[0]);
    } else if ct == 0 && cu == 5 {
        assert(nombre_instancia(t)[0] != nombre_instancia(u)[0]);
    } else if ct == 0 && cu == 6 {
        assert(nombre_instancia(t)[0] != nombre_instancia(u)[0]);
    } else if ct == 0 && cu == 7 {
        assert(nombre_instancia(t)[0] != nombre_instancia(u)[0]);
    } else if ct == 0 && cu == 8 {
        assert(nombre_instancia(t)[0] != nombre_instancia(u)[0]);
    } else if ct == 0 && cu == 9 {
        assert(nombre_instancia(t)[0] != nombre_instancia(u)[0]);
    } else if ct == 1 && cu == 0 {
        assert(nombre_instancia(t)[0] != nombre_instancia(u)[0]);
    } else if ct == 1 && cu == 2 {
        assert(nombre_instancia(t)[0] != nombre_instancia(u)[0]);
    } else if ct == 1 && cu == 3 {
        assert(nombre_instancia(t)[0] != nombre_instancia(u)[0]);
    } else if ct == 1 && cu == 4 {
        assert(nombre_instancia(t)[0] != nombre_instancia(u)[0]);
    } else if ct == 1 && cu == 5 {
        assert(nombre_instancia(t)[0] != nombre_instancia(u)[0]);
    } else if ct == 1 && cu == 6 {
        assert(nombre_instancia(t)[0] != nombre_instancia(u)[0]);
    } else if ct == 1 && cu == 7 {
        assert(nombre_instancia(t)[0] != nombre_instancia(u)[0]);
    } else if ct == 1 && cu == 8 {
        assert(nombre_instancia(t)[0] != nombre_instancia(u)[0]);
    } else if ct == 1 && cu == 9 {
        assert(nombre_instancia(t)[0] != nombre_instancia(u)[0]);
    } else if ct == 2 && cu == 0 {
        assert(nombre_instancia(t)[0] != nombre_instancia(u)[0]);
    } else if ct == 2 && cu == 1 {
        assert(nombre_instancia(t)[0] != nombre_instancia(u)[0]);
    } else if ct == 2 && cu == 3 {
        assert(nombre_instancia(t)[0] != nombre_instancia(u)[0]);
    } else if ct == 2 && cu == 4 {
        assert(nombre_instancia(t)[0] != nombre_instancia(u)[0]);
    } else if ct == 2 && cu == 5 {
        assert(nombre_instancia(t)[0] != nombre_instancia(u)[0]);
    } else if ct == 2 && cu == 6 {
        assert(nombre_instancia(t)[0] != nombre_instancia(u)[0]);
    } else if ct == 2 && cu == 7 {
        assert(nombre_instancia(t)[0] != nombre_instancia(u)[0]);
    } else if ct == 2 && cu == 8 {
        assert(nombre_instancia(t)[0] != nombre_instancia(u)[0]);
    } else if ct == 2 && cu == 9 {
        assert(nombre_instancia(t)[0] != nombre_instancia(u)[0]);
    } else if ct == 3 && cu == 0 {
        assert(nombre_instancia(t)[0] != nombre_instancia(u)[0]);
    } else if ct == 3 && cu == 1 {
        assert(nombre_instancia(t)[0] != nombre_instancia(u)[0]);
    } else if ct == 3 && cu == 2 {
        assert(nombre_instancia(t)[0] != nombre_instancia(u)[0]);
    } else if ct == 3 && cu == 4 {
        assert(nombre_instancia(t)[3] != nombre_instancia(u)[3]);
    } else if ct == 3 && cu == 5 {
        assert(nombre_instancia(t)[3] != nombre_instancia(u)[3]);
    } else if ct == 3 && cu == 6 {
        assert(nombre_instancia(t)[3] != nombre_instancia(u)[3]);
    } else if ct == 3 && cu == 7 {
        assert(nombre_instancia(t)[0] != nombre_instancia(u)[0]);
    } else if ct == 3 && cu == 8 {
        assert(nombre_instancia(t)[0] != nombre_instancia(u)[0]);
    } else if ct == 3 && cu == 9 {
        assert(nombre_instancia(t)[2] != nombre_instancia(u)[2]);
    } else if ct == 4 && cu == 0 {
        assert(nombre_instancia(t)[0] != nombre_instancia(u)[0]);
    } else if ct == 4 && cu == 1 {
        assert(nombre_instancia(t)[0] != nombre_instancia(u)[0]);
    } else if ct == 4 && cu == 2 {
        assert(nombre_instancia(t)[0] != nombre_instancia(u)[0]);
    } else if ct == 4 && cu == 3 {
        assert(nombre_instancia(t)[3] != nombre_instancia(u)[3]);
    } else if ct == 4 && cu == 5 {
        assert(nombre_instancia(t)[3] != nombre_instancia(u)[3]);
    } else if ct == 4 && cu == 6 {
        assert(nombre_instancia(t)[6] != nombre_instancia(u)[6]);
    } else if ct == 4 && cu == 7 {
        assert(nombre_instancia(t)[0] != nombre_instancia(u)[0]);
    } else if ct == 4 && cu == 8 {
        assert(nombre_instancia(t)[0] != nombre_instancia(u)[0]);
    } else if ct == 4 && cu == 9 {
        assert(nombre_instancia(t)[2] != nombre_instancia(u)[2]);
    } else if ct == 5 && cu == 0 {
        assert(nombre_instancia(t)[0] != nombre_instancia(u)[0]);
    } else if ct == 5 && cu == 1 {
        assert(nombre_instancia(t)[0] != nombre_instancia(u)[0]);
    } else if ct == 5 && cu == 2 {
        assert(nombre_instancia(t)[0] != nombre_instancia(u)[0]);
    } else if ct == 5 && cu == 3 {
        assert(nombre_instancia(t)[3] != nombre_instancia(u)[3]);
    } else if ct == 5 && cu == 4 {
        assert(nombre_instancia(t)[3] != nombre_instancia(u)[3]);
    } else if ct == 5 && cu == 6 {
        assert(nombre_instancia(t)[3] != nombre_instancia(u)[3]);
    } else if ct == 5 && cu == 7 {
        assert(nombre_instancia(t)[0] != nombre_instancia(u)[0]);
    } else if ct == 5 && cu == 8 {
        assert(nombre_instancia(t)[0] != nombre_instancia(u)[0]);
    } else if ct == 5 && cu == 9 {
        assert(nombre_instancia(t)[2] != nombre_instancia(u)[2]);
    } else if ct == 6 && cu == 0 {
        assert(nombre_instancia(t)[0] != nombre_instancia(u)[0]);
    } else if ct == 6 && cu == 1 {
        assert(nombre_instancia(t)[0] != nombre_instancia(u)[0]);
    } else if ct == 6 && cu == 2 {
        assert(nombre_instancia(t)[0] != nombre_instancia(u)[0]);
    } else if ct == 6 && cu == 3 {
        assert(nombre_instancia(t)[3] != nombre_instancia(u)[3]);
    } else if ct == 6 && cu == 4 {
        assert(nombre_instancia(t)[6] != nombre_instancia(u)[6]);
    } else if ct == 6 && cu == 5 {
        assert(nombre_instancia(t)[3] != nombre_instancia(u)[3]);
    } else if ct == 6 && cu == 7 {
        assert(nombre_instancia(t)[0] != nombre_instancia(u)[0]);
    } else if ct == 6 && cu == 8 {
        assert(nombre_instancia(t)[0] != nombre_instancia(u)[0]);
    } else if ct == 6 && cu == 9 {
        assert(nombre_instancia(t)[2] != nombre_instancia(u)[2]);
    } else if ct == 7 && cu == 0 {
        assert(nombre_instancia(t)[0] != nombre_instancia(u)[0]);
    } else if ct == 7 && cu == 1 {
        assert(nombre_instancia(t)[0] != nombre_instancia(u)[0]);
    } else if ct == 7 && cu == 2 {
        assert(nombre_instancia(t)[0] != nombre_instancia(u)[0]);
    } else if ct == 7 && cu == 3 {
        assert(nombre_instancia(t)[0] != nombre_instancia(u)[0]);
    } else if ct == 7 && cu == 4 {
        assert(nombre_instancia(t)[0] != nombre_instancia(u)[0]);
    } else if ct == 7 && cu == 5 {
        assert(nombre_instancia(t)[0] != nombre_instancia(u)[0]);
    } else if ct == 7 && cu == 6 {
        assert(nombre_instancia(t)[0] != nombre_instancia(u)[0]);
    } else if ct == 7 && cu == 8 {
        assert(nombre_instancia(t)[0] != nombre_instancia(u)[0]);
    } else if ct == 7 && cu == 9 {
        assert(nombre_instancia(t)[0] != nombre_instancia(u)[0]);
    } else if ct == 8 && cu == 0 {
        assert(nombre_instancia(t)[0] != nombre_instancia(u)[0]);
    } else if ct == 8 && cu == 1 {
        assert(nombre_instancia(t)[0] != nombre_instancia(u)[0]);
    } else if ct == 8 && cu == 2 {
        assert(nombre_instancia(t)[0] != nombre_instancia(u)[0]);
    } else if ct == 8 && cu == 3 {
        assert(nombre_instancia(t)[0] != nombre_instancia(u)[0]);
    } else if ct == 8 && cu == 4 {
        assert(nombre_instancia(t)[0] != nombre_instancia(u)[0]);
    } else if ct == 8 && cu == 5 {
        assert(nombre_instancia(t)[0] != nombre_instancia(u)[0]);
    } else if ct == 8 && cu == 6 {
        assert(nombre_instancia(t)[0] != nombre_instancia(u)[0]);
    } else if ct == 8 && cu == 7 {
        assert(nombre_instancia(t)[0] != nombre_instancia(u)[0]);
    } else if ct == 8 && cu == 9 {
        assert(nombre_instancia(t)[0] != nombre_instancia(u)[0]);
    } else if ct == 9 && cu == 0 {
        assert(nombre_instancia(t)[0] != nombre_instancia(u)[0]);
    } else if ct == 9 && cu == 1 {
        assert(nombre_instancia(t)[0] != nombre_instancia(u)[0]);
    } else if ct == 9 && cu == 2 {
        assert(nombre_instancia(t)[0] != nombre_instancia(u)[0]);
    } else if ct == 9 && cu == 3 {
        assert(nombre_instancia(t)[2] != nombre_instancia(u)[2]);
    } else if ct == 9 && cu == 4 {
        assert(nombre_instancia(t)[2] != nombre_instancia(u)[2]);
    } else if ct == 9 && cu == 5 {
        assert(nombre_instancia(t)[2] != nombre_instancia(u)[2]);
    } else if ct == 9 && cu == 6 {
        assert(nombre_instancia(t)[2] != nombre_instancia(u)[2]);
    } else if ct == 9 && cu == 7 {
        assert(nombre_instancia(t)[0] != nombre_instancia(u)[0]);
    } else if ct == 9 && cu == 8 {
        assert(nombre_instancia(t)[0] != nombre_instancia(u)[0]);
        }
    }
    if let (SpecTipo::Conjunto(a), SpecTipo::Conjunto(b)) = (t, u) {
        let p = "Conjunto_"@;
        assert(nombre_instancia(t).subrange(p.len() as int, nombre_instancia(t).len() as int) =~= nombre_instancia(*a));
        assert(nombre_instancia(u).subrange(p.len() as int, nombre_instancia(u).len() as int) =~= nombre_instancia(*b));
    }
    if let (SpecTipo::Vector(a), SpecTipo::Vector(b)) = (t, u) {
        let p = "Vector_"@;
        assert(nombre_instancia(t).subrange(p.len() as int, nombre_instancia(t).len() as int) =~= nombre_instancia(*a));
        assert(nombre_instancia(u).subrange(p.len() as int, nombre_instancia(u).len() as int) =~= nombre_instancia(*b));
    }
}

} // verus!
