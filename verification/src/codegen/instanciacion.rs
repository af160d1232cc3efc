//! What a call of a generic function instantiates: the value of each const
//! generic and the type of each type generic, inferred from the arguments, and
//! the key under which the specialization is kept; or the error that stops
//! the call when one of them cannot be inferred.

use vstd::prelude::*;
use crate::ast::{vista_tipos, FuncionDecl, SpecParametro, SpecParametroGenerico, SpecTipo, Tipo};
use crate::codegen::generics::{
    const_generico_inferido, funcion_especializada, nombre_instancia, parte_nombre, partes_unidas,
    tipo_generico_inferido, vista_parametros,
};
use crate::codegen::{buscar, vista_pares, CategoriaError, Codegen, ErrorCompilacion};
use crate::texto::{decimal, mismo_texto, usize_a_texto};
use vstd::string::StringExecFns;

verus! {

/// An association list with `k` bound to `x`: the first entry with key `k`
/// takes the new value, or the pair goes at the end when there is none.
pub open spec fn con_entrada<X>(s: Seq<(Seq<char>, X)>, k: Seq<char>, x: X) -> Seq<(Seq<char>, X)>
    decreases s.len(),
{
    if s.len() == 0 {
        seq![(k, x)]
    } else if s[0].0 == k {
        s.update(0, (k, x))
    } else {
        seq![s[0]] + con_entrada(s.drop_first(), k, x)
    }
}

/// Binds `k` to `x` in the association list `v`.
fn poner_entrada<X: View>(v: &mut Vec<(String, X)>, k: String, x: X)
    ensures
        vista_pares(final(v)@) == con_entrada(vista_pares(old(v)@), k@, x@),
{
    let ghost s = vista_pares(v@);
    let mut i: usize = 0;
    proof {
        assert(s.take(0) + con_entrada(s.skip(0), k@, x@) =~= con_entrada(s, k@, x@)) by {
            assert(s.skip(0) =~= s);
        }
    }
    while i < v.len()
        invariant
            i <= v.len(),
            s == vista_pares(v@),
            v@ == old(v)@,
            s.take(i as int) + con_entrada(s.skip(i as int), k@, x@) == con_entrada(s, k@, x@),
        decreases v.len() - i,
    {
        assert(s[i as int] == (v@[i as int].0@, v@[i as int].1@));
        if mismo_texto(v[i].0.as_str(), k.as_str()) {
            proof {
                let t = s.skip(i as int);
                assert(t[0] == s[i as int]);
                assert(con_entrada(t, k@, x@) == t.update(0, (k@, x@)));
                assert(s.take(i as int) + t.update(0, (k@, x@)) =~= s.update(i as int, (k@, x@)));
                assert(vista_pares(v@.update(i as int, (k, x))) =~= s.update(i as int, (k@, x@)));
            }
            v.set(i, (k, x));
            return;
        }
        proof {
            let t = s.skip(i as int);
            assert(t[0] == s[i as int]);
            assert(t.drop_first() =~= s.skip(i + 1));
            assert(s.take(i as int) + (seq![t[0]] + con_entrada(t.drop_first(), k@, x@)) =~= s.take(i + 1)
                + con_entrada(s.skip(i + 1), k@, x@));
        }
        i = i + 1;
    }
    proof {
        assert(s.skip(i as int) =~= Seq::<(Seq<char>, X::V)>::empty());
        assert(s.take(i as int) =~= s);
        assert(vista_pares(v@.push((k, x))) =~= s.push((k@, x@)));
    }
    v.push((k, x));
}

/// What a call instantiates.
pub struct Instanciacion {
    /// The value of each const generic, written in decimal.
    pub sust_consts: Vec<(String, String)>,
    /// The type of each type generic.
    pub sust_tipos: Vec<(String, Tipo)>,
    /// One part per generic parameter, in order: the key of the specialization.
    pub valores_clave: Vec<String>,
}

/// The model of an [`Instanciacion`].
pub struct SpecInstanciacion {
    pub sust_consts: Seq<(Seq<char>, Seq<char>)>,
    pub sust_tipos: Seq<(Seq<char>, SpecTipo)>,
    pub valores_clave: Seq<Seq<char>>,
}

impl View for Instanciacion {
    type V = SpecInstanciacion;

    open spec fn view(&self) -> SpecInstanciacion {
        SpecInstanciacion {
            sust_consts: vista_pares(self.sust_consts@),
            sust_tipos: vista_pares(self.sust_tipos@),
            valores_clave: self.valores_clave@.map_values(|t: String| t@),
        }
    }
}

/// The error code of a const generic whose value cannot be inferred.
pub const CODIGO_CONST_NO_INFERIDO: u32 = 60;

/// The error code of a type generic whose type cannot be inferred.
pub const CODIGO_TIPO_NO_INFERIDO: u32 = 62;

/// The message when the value of the const generic `g` is not inferred in a call of `f`.
pub open spec fn mensaje_const(g: Seq<char>, f: Seq<char>) -> Seq<char> {
    "No se pudo inferir el valor del parámetro const '"@ + g + "' en llamada a '"@ + f + "'"@
}

/// The message when the type of the generic `g` is not inferred in a call of `f`.
pub open spec fn mensaje_tipo(g: Seq<char>, f: Seq<char>) -> Seq<char> {
    "No se pudo inferir el tipo del parámetro genérico '"@ + g + "' en llamada a '"@ + f + "'"@
}

/// What the first `k` generic parameters `gps` instantiate, in a call of `f`
/// whose arguments have types `targs`: an error (code, message) at the first
/// one that cannot be inferred.
pub open spec fn instanciacion_hasta(
    gps: Seq<SpecParametroGenerico>,
    params: Seq<SpecParametro>,
    targs: Seq<SpecTipo>,
    f: Seq<char>,
    k: nat,
) -> Result<SpecInstanciacion, (u32, Seq<char>)>
    decreases k,
{
    if k == 0 {
        Ok(SpecInstanciacion { sust_consts: Seq::empty(), sust_tipos: Seq::empty(), valores_clave: Seq::empty() })
    } else {
        match instanciacion_hasta(gps, params, targs, f, (k - 1) as nat) {
            Err(e) => Err(e),
            Ok(inst) => {
                let g = gps[k - 1];
                if g.tipo is Some {
                    match const_generico_inferido(params, targs, g.nombre) {
                        Some(v) => Ok(
                            SpecInstanciacion {
                                sust_consts: con_entrada(inst.sust_consts, g.nombre, decimal(v as nat)),
                                valores_clave: inst.valores_clave.push(decimal(v as nat)),
                                ..inst
                            },
                        ),
                        None => Err((CODIGO_CONST_NO_INFERIDO, mensaje_const(g.nombre, f))),
                    }
                } else {
                    match tipo_generico_inferido(params, targs, g.nombre) {
                        Some(t) => Ok(
                            SpecInstanciacion {
                                sust_tipos: con_entrada(inst.sust_tipos, g.nombre, t),
                                valores_clave: inst.valores_clave.push(nombre_instancia(t)),
                                ..inst
                            },
                        ),
                        None => Err((CODIGO_TIPO_NO_INFERIDO, mensaje_tipo(g.nombre, f))),
                    }
                }
            },
        }
    }
}

/// What a call of the generic function `func`, named `funcion` at the call
/// and with arguments of types `targs`, instantiates.
pub open spec fn instanciacion(func: crate::ast::SpecFuncionDecl, targs: Seq<SpecTipo>, funcion: Seq<char>) -> Result<
    SpecInstanciacion,
    (u32, Seq<char>),
> {
    instanciacion_hasta(
        func.parametros_genericos,
        func.parametros,
        targs,
        funcion,
        func.parametros_genericos.len(),
    )
}

/// Once a generic parameter cannot be inferred, the instantiation fails with
/// that error whatever follows.
pub proof fn lema_error_persiste(
    gps: Seq<SpecParametroGenerico>,
    params: Seq<SpecParametro>,
    targs: Seq<SpecTipo>,
    f: Seq<char>,
    i: nat,
    n: nat,
)
    requires
        i <= n,
        instanciacion_hasta(gps, params, targs, f, i) is Err,
    ensures
        instanciacion_hasta(gps, params, targs, f, n) == instanciacion_hasta(gps, params, targs, f, i),
    decreases n - i,
{
    if i < n {
        lema_error_persiste(gps, params, targs, f, i, (n - 1) as nat);
    }
}

/// The message of an error, built from its parts.
fn mensaje(inicio: &str, g: &str, f: &str) -> (r: String)
    ensures
        r@ == inicio@ + g@ + "' en llamada a '"@ + f@ + "'"@,
{
    let mut m = String::from_str(inicio);
    m.append(g);
    m.append("' en llamada a '");
    m.append(f);
    m.append("'");
    m
}

impl Codegen {
    /// Works out what a call of the generic function `func_generica`, written
    /// `funcion` at the call and given arguments of types `tipos_args`,
    /// instantiates; the error names the first generic parameter that the
    /// arguments do not determine.
    pub fn instanciacion_generica(&self, func_generica: &FuncionDecl, tipos_args: &Vec<Tipo>, funcion: &str) -> (r:
        Result<Instanciacion, ErrorCompilacion>)
        ensures
            match r {
                Ok(inst) => instanciacion(func_generica@, vista_tipos(tipos_args@), funcion@) == Ok::<
                    SpecInstanciacion,
                    (u32, Seq<char>),
                >(inst@),
                Err(e) => e.categoria == CategoriaError::Tipo && instanciacion(
                    func_generica@,
                    vista_tipos(tipos_args@),
                    funcion@,
                ) == Err::<SpecInstanciacion, (u32, Seq<char>)>((e.codigo, e.mensaje@)),
            },
    {
        let ghost gps = func_generica@.parametros_genericos;
        let ghost params = func_generica@.parametros;
        let ghost targs = vista_tipos(tipos_args@);
        proof {
            assert(params =~= vista_parametros(func_generica.parametros@));
        }
        let mut inst = Instanciacion { sust_consts: Vec::new(), sust_tipos: Vec::new(), valores_clave: Vec::new() };
        proof {
            assert(inst@.valores_clave =~= Seq::<Seq<char>>::empty());
            assert(inst@.sust_consts =~= Seq::<(Seq<char>, Seq<char>)>::empty());
            assert(inst@.sust_tipos =~= Seq::<(Seq<char>, SpecTipo)>::empty());
        }
        let mut i: usize = 0;
        while i < func_generica.parametros_genericos.len()
            invariant
                i <= func_generica.parametros_genericos.len(),
                gps == func_generica@.parametros_genericos,
                gps.len() == func_generica.parametros_genericos.len(),
                params == func_generica@.parametros,
                params == vista_parametros(func_generica.parametros@),
                targs == vista_tipos(tipos_args@),
                instanciacion_hasta(gps, params, targs, funcion@, i as nat) == Ok::<
                    SpecInstanciacion,
                    (u32, Seq<char>),
                >(inst@),
            decreases func_generica.parametros_genericos.len() - i,
        {
            let gen = &func_generica.parametros_genericos[i];
            proof {
                assert(gps[i as int] == gen@);
            }
            if gen.tipo.is_some() {
                match self.inferir_const_generico(&func_generica.parametros, tipos_args, gen.nombre.as_str()) {
                    Some(v) => {
                        let valor = usize_a_texto(v);
                        let valor2 = usize_a_texto(v);
                        let ghost antes = inst@;
                        poner_entrada(&mut inst.sust_consts, gen.nombre.clone(), valor);
                        inst.valores_clave.push(valor2);
                        proof {
                            assert(inst@.valores_clave =~= antes.valores_clave.push(decimal(v as nat)));
                        }
                    },
                    None => {
                        let m = mensaje(
                            "No se pudo inferir el valor del parámetro const '",
                            gen.nombre.as_str(),
                            funcion,
                        );
                        proof {
                            assert(instanciacion_hasta(gps, params, targs, funcion@, (i + 1) as nat) == Err::<
                                SpecInstanciacion,
                                (u32, Seq<char>),
                            >((CODIGO_CONST_NO_INFERIDO, m@)));
                            lema_error_persiste(gps, params, targs, funcion@, (i + 1) as nat, gps.len());
                        }
                        return Err(ErrorCompilacion { categoria: CategoriaError::Tipo, codigo: CODIGO_CONST_NO_INFERIDO, mensaje: m });
                    },
                }
            } else {
                match self.inferir_tipo_generico(&func_generica.parametros, tipos_args, gen.nombre.as_str()) {
                    Some(t) => {
                        let parte = self.nombre_tipo_instancia(&t);
                        let ghost antes = inst@;
                        poner_entrada(&mut inst.sust_tipos, gen.nombre.clone(), t);
                        inst.valores_clave.push(parte);
                        proof {
                            assert(inst@.valores_clave =~= antes.valores_clave.push(parte@));
                        }
                    },
                    None => {
                        let m = mensaje(
                            "No se pudo inferir el tipo del parámetro genérico '",
                            gen.nombre.as_str(),
                            funcion,
                        );
                        proof {
                            assert(instanciacion_hasta(gps, params, targs, funcion@, (i + 1) as nat) == Err::<
                                SpecInstanciacion,
                                (u32, Seq<char>),
                            >((CODIGO_TIPO_NO_INFERIDO, m@)));
                            lema_error_persiste(gps, params, targs, funcion@, (i + 1) as nat, gps.len());
                        }
                        return Err(ErrorCompilacion { categoria: CategoriaError::Tipo, codigo: CODIGO_TIPO_NO_INFERIDO, mensaje: m });
                    },
                }
            }
            i = i + 1;
        }
        Ok(inst)
    }
}

/// Binding `k` makes a lookup of `k` give the new value and leaves every
/// other key as it was.
pub proof fn lema_con_entrada<X>(s: Seq<(Seq<char>, X)>, k: Seq<char>, x: X, otra: Seq<char>)
    ensures
        buscar(con_entrada(s, k, x), k) == Some(x),
        otra != k ==> buscar(con_entrada(s, k, x), otra) == buscar(s, otra),
    decreases s.len(),
{
    if s.len() == 0 {
        assert(seq![(k, x)].drop_first() =~= Seq::<(Seq<char>, X)>::empty());
        assert(buscar(Seq::<(Seq<char>, X)>::empty(), otra) is None);
        assert(seq![(k, x)][0] == (k, x));
    } else if s[0].0 == k {
        assert(s.update(0, (k, x)).drop_first() =~= s.drop_first());
    } else {
        lema_con_entrada(s.drop_first(), k, x, otra);
        assert((seq![s[0]] + con_entrada(s.drop_first(), k, x))[0] == s[0]);
        assert((seq![s[0]] + con_entrada(s.drop_first(), k, x)).drop_first() =~= con_entrada(
            s.drop_first(),
            k,
            x,
        ));
    }
}

/// A successful instantiation binds every generic parameter: the key has one
/// part per parameter, each const generic has a value and each type generic
/// has a type.
pub proof fn ley_instanciacion_completa(
    gps: Seq<SpecParametroGenerico>,
    params: Seq<SpecParametro>,
    targs: Seq<SpecTipo>,
    f: Seq<char>,
    k: nat,
)
    requires
        k <= gps.len(),
        instanciacion_hasta(gps, params, targs, f, k) is Ok,
    ensures
        ({
            let inst = instanciacion_hasta(gps, params, targs, f, k)->Ok_0;
            &&& inst.valores_clave.len() == k
            &&& forall|j: int|
                0 <= j < k ==> if (#[trigger] gps[j]).tipo is Some {
                    buscar(inst.sust_consts, gps[j].nombre) is Some
                } else {
                    buscar(inst.sust_tipos, gps[j].nombre) is Some
                }
        }),
    decreases k,
{
    if k > 0 {
        ley_instanciacion_completa(gps, params, targs, f, (k - 1) as nat);
        let antes = instanciacion_hasta(gps, params, targs, f, (k - 1) as nat)->Ok_0;
        let inst = instanciacion_hasta(gps, params, targs, f, k)->Ok_0;
        let g = gps[k - 1];
        assert forall|j: int| 0 <= j < k implies if (#[trigger] gps[j]).tipo is Some {
            buscar(inst.sust_consts, gps[j].nombre) is Some
        } else {
            buscar(inst.sust_tipos, gps[j].nombre) is Some
        } by {
            if g.tipo is Some {
                let v = const_generico_inferido(params, targs, g.nombre)->Some_0;
                lema_con_entrada(antes.sust_consts, g.nombre, decimal(v as nat), gps[j].nombre);
            } else {
                let t = tipo_generico_inferido(params, targs, g.nombre)->Some_0;
                lema_con_entrada(antes.sust_tipos, g.nombre, t, gps[j].nombre);
            }
        }
    }
}

/// The parts of a key joined with `_`.
pub open spec fn unidas(s: Seq<Seq<char>>) -> Seq<char>
    decreases s.len(),
{
    if s.len() == 0 {
        Seq::empty()
    } else if s.len() == 1 {
        s[0]
    } else {
        unidas(s.drop_last()) + "_"@ + s.last()
    }
}

/// The generic parameter `g` is bound in `inst` to the value inferred for its
/// name, and `parte` is the part of the key that this value gives.
pub open spec fn ligado(
    g: SpecParametroGenerico,
    params: Seq<SpecParametro>,
    targs: Seq<SpecTipo>,
    inst: SpecInstanciacion,
    parte: Seq<char>,
) -> bool {
    if g.tipo is Some {
        match const_generico_inferido(params, targs, g.nombre) {
            Some(v) => parte == decimal(v as nat) && buscar(inst.sust_consts, g.nombre) == Some(parte),
            None => false,
        }
    } else {
        match tipo_generico_inferido(params, targs, g.nombre) {
            Some(t) => parte == nombre_instancia(t) && buscar(inst.sust_tipos, g.nombre) == Some(t),
            None => false,
        }
    }
}

/// After the first `k` generic parameters, each of them is bound, in the
/// substitutions, to the value inferred for its name, which also gave its
/// part of the key.
proof fn lema_partes_de_la_clave(
    gps: Seq<SpecParametroGenerico>,
    params: Seq<SpecParametro>,
    targs: Seq<SpecTipo>,
    f: Seq<char>,
    k: nat,
)
    requires
        k <= gps.len(),
        instanciacion_hasta(gps, params, targs, f, k) is Ok,
    ensures
        instanciacion_hasta(gps, params, targs, f, k)->Ok_0.valores_clave.len() == k,
        forall|j: int|
            0 <= j < k ==> ligado(
                #[trigger] gps[j],
                params,
                targs,
                instanciacion_hasta(gps, params, targs, f, k)->Ok_0,
                instanciacion_hasta(gps, params, targs, f, k)->Ok_0.valores_clave[j],
            ),
    decreases k,
{
    if k > 0 {
        lema_partes_de_la_clave(gps, params, targs, f, (k - 1) as nat);
        let antes = instanciacion_hasta(gps, params, targs, f, (k - 1) as nat)->Ok_0;
        let inst = instanciacion_hasta(gps, params, targs, f, k)->Ok_0;
        let g = gps[k - 1];
        assert forall|j: int| 0 <= j < k implies ligado(#[trigger] gps[j], params, targs, inst, inst.valores_clave[j]) by {
            if g.tipo is Some {
                let v = const_generico_inferido(params, targs, g.nombre)->Some_0;
                lema_con_entrada(antes.sust_consts, g.nombre, decimal(v as nat), gps[j].nombre);
            } else {
                let t = tipo_generico_inferido(params, targs, g.nombre)->Some_0;
                lema_con_entrada(antes.sust_tipos, g.nombre, t, gps[j].nombre);
            }
            if j < k - 1 {
                assert(inst.valores_clave[j] == antes.valores_clave[j]);
                assert(ligado(gps[j], params, targs, antes, antes.valores_clave[j]));
            }
        }
    }
}

/// After the first `k` generic parameters, each of them names in the
/// substitutions the part of the key that it gave.
proof fn lema_partes_nombradas(
    gps: Seq<SpecParametroGenerico>,
    params: Seq<SpecParametro>,
    targs: Seq<SpecTipo>,
    f: Seq<char>,
    k: nat,
)
    requires
        k <= gps.len(),
        instanciacion_hasta(gps, params, targs, f, k) is Ok,
    ensures
        ({
            let inst = instanciacion_hasta(gps, params, targs, f, k)->Ok_0;
            &&& inst.valores_clave.len() == k
            &&& forall|j: int|
                0 <= j < k ==> parte_nombre(#[trigger] gps[j], inst.sust_consts, inst.sust_tipos)
                    == inst.valores_clave[j]
        }),
{
    lema_partes_de_la_clave(gps, params, targs, f, k);
    let inst = instanciacion_hasta(gps, params, targs, f, k)->Ok_0;
    assert forall|j: int| 0 <= j < k implies parte_nombre(#[trigger] gps[j], inst.sust_consts, inst.sust_tipos)
        == inst.valores_clave[j] by {
        assert(ligado(gps[j], params, targs, inst, inst.valores_clave[j]));
    }
}

/// Joining the parts that the first `k` parameters give.
proof fn lema_partes_unidas(
    gps: Seq<SpecParametroGenerico>,
    sc: Seq<(Seq<char>, Seq<char>)>,
    st: Seq<(Seq<char>, SpecTipo)>,
    clave: Seq<Seq<char>>,
    k: nat,
)
    requires
        k <= gps.len(),
        k <= clave.len(),
        forall|j: int| 0 <= j < k ==> parte_nombre(#[trigger] gps[j], sc, st) == clave[j],
    ensures
        partes_unidas(gps.take(k as int), sc, st) == unidas(clave.take(k as int)),
    decreases k,
{
    if k > 1 {
        lema_partes_unidas(gps, sc, st, clave, (k - 1) as nat);
        assert(gps.take(k as int).drop_last() =~= gps.take(k - 1));
        assert(clave.take(k as int).drop_last() =~= clave.take(k - 1));
        assert(gps.take(k as int).last() == gps[k - 1]);
        assert(clave.take(k as int).last() == clave[k - 1]);
    } else if k == 1 {
        assert(gps.take(1)[0] == gps[0]);
        assert(clave.take(1)[0] == clave[0]);
    }
}

/// The specialization of a call is named by its key: the function's name, `_`,
/// and the parts of the key joined with `_`.
pub proof fn ley_nombre_de_la_especializacion(
    func: crate::ast::SpecFuncionDecl,
    targs: Seq<SpecTipo>,
    funcion: Seq<char>,
)
    requires
        instanciacion(func, targs, funcion) is Ok,
    ensures
        ({
            let inst = instanciacion(func, targs, funcion)->Ok_0;
            funcion_especializada(func, inst.sust_consts, inst.sust_tipos).nombre == func.nombre + "_"@ + unidas(
                inst.valores_clave,
            )
        }),
{
    let gps = func.parametros_genericos;
    let n = gps.len();
    lema_partes_nombradas(gps, func.parametros, targs, funcion, n);
    let inst = instanciacion(func, targs, funcion)->Ok_0;
    lema_partes_unidas(gps, inst.sust_consts, inst.sust_tipos, inst.valores_clave, n);
    assert(gps.take(n as int) =~= gps);
    assert(inst.valores_clave.take(n as int) =~= inst.valores_clave);
}

/// The key of a specialization: the generic function's name and the parts
/// that its generic parameters gave.
pub open spec fn vista_partes(v: Seq<String>) -> Seq<Seq<char>> {
    v.map_values(|t: String| t@)
}

/// The key of a specialization: the generic function's name and the parts
/// that its generic parameters gave.
pub open spec fn vista_clave(funcion: String, partes: Vec<String>) -> (Seq<char>, Seq<Seq<char>>) {
    (funcion@, vista_partes(partes@))
}

/// The specializations already made, each with the number of the function
/// that code generation declared for it.
pub struct Especializaciones {
    pub entradas: Vec<(String, Vec<String>, u32)>,
}

impl View for Especializaciones {
    type V = Seq<((Seq<char>, Seq<Seq<char>>), u32)>;

    open spec fn view(&self) -> Seq<((Seq<char>, Seq<Seq<char>>), u32)> {
        self.entradas@.map_values(|e: (String, Vec<String>, u32)| (vista_clave(e.0, e.1), e.2))
    }
}

/// The function kept for a key: that of its first entry.
pub open spec fn especializacion_de(
    s: Seq<((Seq<char>, Seq<Seq<char>>), u32)>,
    k: (Seq<char>, Seq<Seq<char>>),
) -> Option<u32>
    decreases s.len(),
{
    if s.len() == 0 {
        None
    } else if s[0].0 == k {
        Some(s[0].1)
    } else {
        especializacion_de(s.drop_first(), k)
    }
}

/// Whether two lists of texts are equal.
fn mismas_partes(a: &Vec<String>, b: &Vec<String>) -> (r: bool)
    ensures
        r == (vista_partes(a@) == vista_partes(b@)),
{
    let ghost va = vista_partes(a@);
    let ghost vb = vista_partes(b@);
    if a.len() != b.len() {
        assert(va.len() != vb.len());
        return false;
    }
    let mut i: usize = 0;
    while i < a.len()
        invariant
            i <= a.len(),
            a.len() == b.len(),
            va == vista_partes(a@),
            vb == vista_partes(b@),
            forall|j: int| 0 <= j < i ==> va[j] == vb[j],
        decreases a.len() - i,
    {
        if !mismo_texto(a[i].as_str(), b[i].as_str()) {
            assert(va[i as int] != vb[i as int]);
            return false;
        }
        i = i + 1;
    }
    assert(va =~= vb);
    true
}

impl Especializaciones {
    /// The function already made for the key (`funcion`, `partes`), if any.
    pub fn buscar(&self, funcion: &String, partes: &Vec<String>) -> (r: Option<u32>)
        ensures
            r == especializacion_de(self@, (funcion@, vista_partes(partes@))),
    {
        let ghost k = (funcion@, vista_partes(partes@));
        let ghost s = self@;
        let mut i: usize = 0;
        proof {
            assert(s.skip(0) =~= s);
        }
        while i < self.entradas.len()
            invariant
                i <= self.entradas.len(),
                s == self@,
                k == (funcion@, vista_partes(partes@)),
                s.len() == self.entradas.len(),
                especializacion_de(s, k) == especializacion_de(s.skip(i as int), k),
            decreases self.entradas.len() - i,
        {
            let e = &self.entradas[i];
            proof {
                assert(s[i as int] == (vista_clave(e.0, e.1), e.2));
                assert(s.skip(i as int)[0] == s[i as int]);
                assert(s.skip(i as int).drop_first() =~= s.skip(i + 1));
            }
            let igual_nombre = mismo_texto(e.0.as_str(), funcion.as_str());
            let iguales_partes = mismas_partes(&e.1, partes);
            proof {
                assert(s[i as int].0 == vista_clave(e.0, e.1));
                assert(vista_clave(e.0, e.1) == (e.0@, vista_partes(e.1@)));
                assert((igual_nombre && iguales_partes) == (s[i as int].0 == k));
            }
            if igual_nombre && iguales_partes {
                return Some(e.2);
            }
            i = i + 1;
        }
        None
    }

    /// Keeps `id` as the function made for the key (`funcion`, `partes`).
    pub fn registrar(&mut self, funcion: String, partes: Vec<String>, id: u32)
        ensures
            final(self)@ == seq![((funcion@, vista_partes(partes@)), id)] + old(self)@,
    {
        let ghost antes = self@;
        self.entradas.insert(0, (funcion, partes, id));
        proof {
            assert(self@ =~= seq![((funcion@, vista_partes(partes@)), id)] + antes);
        }
    }
}

/// A kept specialization is found again, and keeping one changes no other key.
pub proof fn ley_especializacion_registrada(
    s: Seq<((Seq<char>, Seq<Seq<char>>), u32)>,
    k: (Seq<char>, Seq<Seq<char>>),
    id: u32,
    otra: (Seq<char>, Seq<Seq<char>>),
)
    ensures
        especializacion_de(seq![(k, id)] + s, k) == Some(id),
        otra != k ==> especializacion_de(seq![(k, id)] + s, otra) == especializacion_de(s, otra),
{
    assert((seq![(k, id)] + s)[0] == (k, id));
    assert((seq![(k, id)] + s).drop_first() =~= s);
}

} // verus!
