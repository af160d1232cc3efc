//! What code generation decides about a function before it emits its body,
//! and where it sends a call.

use vstd::prelude::*;
use vstd::string::{StrSliceExecFns, StringExecFns};
use crate::ast::{Articulo, Expresion, FuncionDecl, Llamada, SpecExpresion, SpecFuncionDecl, SpecLlamada, SpecParametro};
use crate::clonar::clonar_expresion;
use crate::codegen::expresiones::es_nombre_builtin;
use crate::codegen::{CategoriaError, Codegen, ErrorCompilacion};
use crate::texto::mismo_texto;

verus! {

/// The names of the parameters passed with `el` or `los`: the callee owns
/// their values and frees them when it ends.
pub open spec fn nombres_propios(ps: Seq<SpecParametro>) -> Seq<Seq<char>>
    decreases ps.len(),
{
    if ps.len() == 0 {
        Seq::empty()
    } else {
        let previos = nombres_propios(ps.drop_last());
        let p = ps.last();
        if p.articulo == Articulo::El || p.articulo == Articulo::Los {
            previos.push(p.nombre)
        } else {
            previos
        }
    }
}

/// The model of a list of statements has one statement per statement.
proof fn lema_vista_sentencias_len(s: Seq<crate::ast::Sentencia>)
    ensures
        crate::ast::vista_sentencias(s).len() == s.len(),
    decreases s.len(),
{
    if s.len() > 0 {
        lema_vista_sentencias_len(s.drop_last());
    }
}

/// How a function is compiled.
#[derive(Debug, PartialEq)]
pub enum PlanFuncion {
    /// A foreign function without a body: it is only declared.
    SoloDeclarada,
    /// A `fut` function, compiled as a state machine.
    Futuro,
    /// An ordinary function.
    Normal {
        /// Its struct result is written through a hidden first parameter.
        sret: bool,
        /// It is `principal`: it installs the panic handler first.
        instalar_manejador: bool,
        /// It is `principal` and memory tracking is on: it starts the tracker.
        iniciar_memoria: bool,
        /// The parameters that it owns, freed when it ends.
        propios: Vec<String>,
    },
}

/// The model of a [`PlanFuncion`].
pub enum SpecPlanFuncion {
    SoloDeclarada,
    Futuro,
    Normal { sret: bool, instalar_manejador: bool, iniciar_memoria: bool, propios: Seq<Seq<char>> },
}

impl View for PlanFuncion {
    type V = SpecPlanFuncion;

    open spec fn view(&self) -> SpecPlanFuncion {
        match self {
            PlanFuncion::SoloDeclarada => SpecPlanFuncion::SoloDeclarada,
            PlanFuncion::Futuro => SpecPlanFuncion::Futuro,
            PlanFuncion::Normal { sret, instalar_manejador, iniciar_memoria, propios } => SpecPlanFuncion::Normal {
                sret: *sret,
                instalar_manejador: *instalar_manejador,
                iniciar_memoria: *iniciar_memoria,
                propios: propios@.map_values(|n: String| n@),
            },
        }
    }
}

/// How the function `f` is compiled, given whether its result type is a
/// struct and the level of memory tracking.
pub open spec fn plan_de_funcion(f: SpecFuncionDecl, retorno_es_struct: bool, nivel_memoria: u8) -> SpecPlanFuncion {
    if f.es_insegura && f.cuerpo.sentencias.len() == 0 {
        SpecPlanFuncion::SoloDeclarada
    } else if f.es_futuro {
        SpecPlanFuncion::Futuro
    } else {
        SpecPlanFuncion::Normal {
            sret: f.retorno is Some && retorno_es_struct,
            instalar_manejador: f.nombre == "principal"@,
            iniciar_memoria: f.nombre == "principal"@ && nivel_memoria > 0,
            propios: nombres_propios(f.parametros),
        }
    }
}

/// Decides how `func` is compiled; `retorno_es_struct` says whether its
/// result type, when it has one, is a struct, and `nivel_memoria` is the
/// level of memory tracking (0 when off).
pub fn plan_funcion(func: &FuncionDecl, retorno_es_struct: bool, nivel_memoria: u8) -> (r: PlanFuncion)
    ensures
        r@ == plan_de_funcion(func@, retorno_es_struct, nivel_memoria),
{
    if func.es_insegura && func.cuerpo.sentencias.len() == 0 {
        proof {
            assert(func@.cuerpo.sentencias.len() == 0) by {
                lema_vista_sentencias_len(func.cuerpo.sentencias@);
            }
        }
        return PlanFuncion::SoloDeclarada;
    }
    proof {
        lema_vista_sentencias_len(func.cuerpo.sentencias@);
    }
    if func.es_futuro {
        return PlanFuncion::Futuro;
    }
    let ghost ps = func@.parametros;
    let mut propios: Vec<String> = Vec::new();
    let mut i: usize = 0;
    proof {
        assert(ps.take(0) =~= Seq::<SpecParametro>::empty());
    }
    while i < func.parametros.len()
        invariant
            i <= func.parametros.len(),
            ps == func@.parametros,
            ps.len() == func.parametros.len(),
            propios@.map_values(|n: String| n@) == nombres_propios(ps.take(i as int)),
        decreases func.parametros.len() - i,
    {
        let p = &func.parametros[i];
        proof {
            assert(ps[i as int] == p@);
            assert(ps.take(i + 1).drop_last() =~= ps.take(i as int));
            assert(ps.take(i + 1).last() == ps[i as int]);
        }
        match p.articulo {
            Articulo::El | Articulo::Los => {
                let ghost antes = propios@;
                propios.push(String::from_str(p.nombre.as_str()));
                proof {
                    assert(propios@.map_values(|n: String| n@) =~= antes.map_values(|n: String| n@).push(
                        p.nombre@,
                    ));
                }
            },
            _ => {},
        }
        i = i + 1;
    }
    proof {
        assert(ps.take(ps.len() as int) =~= ps);
    }
    let es_principal = mismo_texto(func.nombre.as_str(), "principal");
    let sret = match &func.retorno {
        Some(_) => retorno_es_struct,
        None => false,
    };
    PlanFuncion::Normal {
        sret,
        instalar_manejador: es_principal,
        iniciar_memoria: es_principal && nivel_memoria > 0,
        propios,
    }
}

/// Whether `s` ends with `sufijo`.
pub open spec fn termina_en(s: Seq<char>, sufijo: Seq<char>) -> bool {
    s.len() >= sufijo.len() && s.subrange(s.len() - sufijo.len(), s.len() as int) == sufijo
}

/// Whether `s` ends with `sufijo`.
fn termina_con(s: &str, sufijo: &str) -> (r: bool)
    ensures
        r == termina_en(s@, sufijo@),
{
    let n = s.unicode_len();
    let k = sufijo.unicode_len();
    if n < k {
        return false;
    }
    mismo_texto(s.substring_char(n - k, n), sufijo)
}

/// The variable that a call `x_liberar(v, ...)` frees by hand: its first
/// argument, when that is a variable.
pub open spec fn liberada_por(l: SpecLlamada) -> Option<Seq<char>> {
    if termina_en(l.funcion, "_liberar"@) && l.argumentos.len() > 0 {
        match l.argumentos[0] {
            SpecExpresion::Identificador(n, _) => Some(n),
            _ => None,
        }
    } else {
        None
    }
}

/// The variable that `llamada` frees by hand, which then needs no automatic
/// release at the end of its scope.
pub fn variable_liberada(llamada: &Llamada) -> (r: Option<String>)
    ensures
        match r {
            Some(n) => liberada_por(llamada@) == Some(n@),
            None => liberada_por(llamada@) is None,
        },
{
    proof {
        crate::codegen::expresiones::lema_vista_expresiones(llamada.argumentos@);
    }
    if termina_con(llamada.funcion.as_str(), "_liberar") && llamada.argumentos.len() > 0 {
        match &llamada.argumentos[0] {
            Expresion::Identificador(n, _) => Some(String::from_str(n.as_str())),
            _ => None,
        }
    } else {
        None
    }
}

/// Where code generation sends a call.
#[derive(Debug, PartialEq)]
pub enum DestinoLlamada {
    /// A built-in function, emitted in place.
    Builtin,
    /// A generic function: specialized for the arguments, then called.
    Generica,
    /// A declared function, called directly; `true` when its struct result
    /// comes back through a hidden pointer.
    Directa(bool),
    /// A variable holding a closure, called through its function pointer.
    Indirecta,
    /// Nothing of that name: the error reported.
    Desconocida(ErrorCompilacion),
}

/// The model of a [`DestinoLlamada`].
pub enum SpecDestinoLlamada {
    Builtin,
    Generica,
    Directa(bool),
    Indirecta,
    Desconocida(CategoriaError, u32, Seq<char>),
}

impl View for DestinoLlamada {
    type V = SpecDestinoLlamada;

    open spec fn view(&self) -> SpecDestinoLlamada {
        match self {
            DestinoLlamada::Builtin => SpecDestinoLlamada::Builtin,
            DestinoLlamada::Generica => SpecDestinoLlamada::Generica,
            DestinoLlamada::Directa(s) => SpecDestinoLlamada::Directa(*s),
            DestinoLlamada::Indirecta => SpecDestinoLlamada::Indirecta,
            DestinoLlamada::Desconocida(e) => SpecDestinoLlamada::Desconocida(e.categoria, e.codigo, e.mensaje@),
        }
    }
}

/// The error code of a call of an unknown function.
pub const CODIGO_FUNCION_NO_ENCONTRADA: u32 = 1;

/// Where a call of `f` goes: a built-in first, then a generic function, a
/// declared function, a variable holding a closure, else nowhere.
pub open spec fn destino_de_llamada(
    f: Seq<char>,
    es_generica: bool,
    es_declarada: bool,
    retorno_es_struct: bool,
    es_variable: bool,
) -> SpecDestinoLlamada {
    if es_nombre_builtin(f) {
        SpecDestinoLlamada::Builtin
    } else if es_generica {
        SpecDestinoLlamada::Generica
    } else if es_declarada {
        SpecDestinoLlamada::Directa(retorno_es_struct)
    } else if es_variable {
        SpecDestinoLlamada::Indirecta
    } else {
        SpecDestinoLlamada::Desconocida(
            CategoriaError::FFI,
            CODIGO_FUNCION_NO_ENCONTRADA,
            "Función '"@ + f + "' no encontrada"@,
        )
    }
}

impl Codegen {
    /// Decides where `llamada` goes, given whether its name is that of a
    /// generic function, of a declared function (and then whether that one
    /// returns a struct), or of a variable in scope.
    pub fn destino_llamada(
        &self,
        llamada: &Llamada,
        es_generica: bool,
        es_declarada: bool,
        retorno_es_struct: bool,
        es_variable: bool,
    ) -> (r: DestinoLlamada)
        ensures
            r@ == destino_de_llamada(llamada.funcion@, es_generica, es_declarada, retorno_es_struct, es_variable),
    {
        if self.es_llamada_builtin(llamada) {
            DestinoLlamada::Builtin
        } else if es_generica {
            DestinoLlamada::Generica
        } else if es_declarada {
            DestinoLlamada::Directa(retorno_es_struct)
        } else if es_variable {
            DestinoLlamada::Indirecta
        } else {
            let mut m = String::from_str("Función '");
            m.append(llamada.funcion.as_str());
            m.append("' no encontrada");
            DestinoLlamada::Desconocida(ErrorCompilacion {
                categoria: CategoriaError::FFI,
                codigo: CODIGO_FUNCION_NO_ENCONTRADA, mensaje: m })
        }
    }
}

/// The expression whose value, in milliseconds, a suspension point of a `fut`
/// function waits for: the argument of `dormir(ms)`, or else the whole
/// expression.
pub open spec fn espera_de_suspension(e: SpecExpresion) -> SpecExpresion {
    match e {
        SpecExpresion::Llamada(l) => if l.funcion == "dormir"@ && l.argumentos.len() > 0 {
            l.argumentos[0]
        } else {
            e
        },
        _ => e,
    }
}

/// The expression that gives the milliseconds a suspension point `expr` waits.
pub fn ms_de_suspension(expr: &Expresion) -> (r: Expresion)
    ensures
        r@ == espera_de_suspension(expr@),
{
    if let Expresion::Llamada(llamada) = expr {
        proof {
            crate::codegen::expresiones::lema_vista_expresiones(llamada.argumentos@);
        }
        if mismo_texto(llamada.funcion.as_str(), "dormir") && llamada.argumentos.len() > 0 {
            return clonar_expresion(&llamada.argumentos[0]);
        }
    }
    clonar_expresion(expr)
}

/// Whether a parameter with this article takes ownership of its argument.
pub open spec fn articulo_mueve(a: Articulo) -> bool {
    a == Articulo::El || a == Articulo::Los
}

/// The variables among the first `k` arguments `args` that a call of a user
/// function moves: passed by name where the parameter (by its article in
/// `articulos`) takes ownership, holding heap memory (`vivas`), each once.
pub open spec fn movidas_hasta(
    args: Seq<SpecExpresion>,
    articulos: Seq<Articulo>,
    vivas: Seq<Seq<char>>,
    k: nat,
) -> Seq<Seq<char>>
    decreases k,
{
    if k == 0 {
        Seq::empty()
    } else {
        let previas = movidas_hasta(args, articulos, vivas, (k - 1) as nat);
        let i = k - 1;
        match args[i] {
            SpecExpresion::Identificador(n, _) => if i < articulos.len() && articulo_mueve(articulos[i])
                && vivas.contains(n) && !previas.contains(n) {
                previas.push(n)
            } else {
                previas
            },
            _ => previas,
        }
    }
}

/// The variables that a call hands over, which then need no automatic
/// release at the end of their scope: the one freed by hand by a
/// `x_liberar(v)`; none for another built-in; for a user function, those that
/// it moves.
pub open spec fn movidas_por(
    l: SpecLlamada,
    articulos: Seq<Articulo>,
    vivas: Seq<Seq<char>>,
) -> Seq<Seq<char>> {
    if termina_en(l.funcion, "_liberar"@) {
        match liberada_por(l) {
            Some(n) => seq![n],
            None => Seq::empty(),
        }
    } else if es_nombre_builtin(l.funcion) {
        Seq::empty()
    } else {
        movidas_hasta(l.argumentos, articulos, vivas, l.argumentos.len())
    }
}

/// Whether `v` holds the text `n`.
fn contiene_texto(v: &Vec<String>, n: &str) -> (r: bool)
    ensures
        r == v@.map_values(|t: String| t@).contains(n@),
{
    let ghost vv = v@.map_values(|t: String| t@);
    let mut i: usize = 0;
    while i < v.len()
        invariant
            i <= v.len(),
            vv == v@.map_values(|t: String| t@),
            forall|j: int| 0 <= j < i ==> vv[j] != n@,
        decreases v.len() - i,
    {
        if mismo_texto(v[i].as_str(), n) {
            assert(vv[i as int] == n@);
            return true;
        }
        i = i + 1;
    }
    false
}

impl Codegen {
    /// The variables that `llamada` hands over, given the articles of the
    /// called function's parameters (none when it is not declared) and the
    /// variables that hold heap memory (`vivas`).
    pub fn variables_movidas(&self, llamada: &Llamada, articulos: &Vec<Articulo>, vivas: &Vec<String>) -> (r: Vec<
        String,
    >)
        ensures
            r@.map_values(|t: String| t@) == movidas_por(
                llamada@,
                articulos@,
                vivas@.map_values(|t: String| t@),
            ),
    {
        if termina_con(llamada.funcion.as_str(), "_liberar") {
            let mut r: Vec<String> = Vec::new();
            match variable_liberada(llamada) {
                Some(n) => {
                    r.push(n);
                    proof {
                        assert(r@.map_values(|t: String| t@) =~= seq![r@[0]@]);
                    }
                },
                None => {
                    proof {
                        assert(r@.map_values(|t: String| t@) =~= Seq::<Seq<char>>::empty());
                    }
                },
            }
            return r;
        }
        let mut r: Vec<String> = Vec::new();
        if self.es_llamada_builtin(llamada) {
            proof {
                assert(r@.map_values(|t: String| t@) =~= Seq::<Seq<char>>::empty());
            }
            return r;
        }
        let ghost args = llamada@.argumentos;
        let ghost vv = vivas@.map_values(|t: String| t@);
        proof {
            crate::codegen::expresiones::lema_vista_expresiones(llamada.argumentos@);
            assert(r@.map_values(|t: String| t@) =~= Seq::<Seq<char>>::empty());
        }
        let mut i: usize = 0;
        while i < llamada.argumentos.len()
            invariant
                i <= llamada.argumentos.len(),
                args == llamada@.argumentos,
                args.len() == llamada.argumentos.len(),
                forall|j: int|
                    0 <= j < llamada.argumentos.len() ==> #[trigger] args[j] == llamada.argumentos@[j]@,
                vv == vivas@.map_values(|t: String| t@),
                r@.map_values(|t: String| t@) == movidas_hasta(args, articulos@, vv, i as nat),
            decreases llamada.argumentos.len() - i,
        {
            assert(args[i as int] == llamada.argumentos@[i as int]@);
            if let Expresion::Identificador(n, _) = &llamada.argumentos[i] {
                let mueve = i < articulos.len() && match articulos[i] {
                    Articulo::El | Articulo::Los => true,
                    _ => false,
                };
                if mueve && contiene_texto(vivas, n.as_str()) && !contiene_texto(&r, n.as_str()) {
                    let ghost antes = r@;
                    r.push(String::from_str(n.as_str()));
                    proof {
                        assert(r@.map_values(|t: String| t@) =~= antes.map_values(|t: String| t@).push(n@));
                    }
                }
            }
            i = i + 1;
        }
        r
    }
}

} // verus!
