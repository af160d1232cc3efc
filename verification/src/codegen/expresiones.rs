//! Analyses of expressions that code generation relies on: which variables an
//! expression reads, which calls go to built-in functions, and the lookups of
//! enum tags and struct field types.

use vstd::prelude::*;
use crate::ast::{vista_expresiones, vista_parametros_closure, vista_tipo, Expresion, Llamada, SpecExpresion, SpecTipo, Tipo};
use crate::clonar::clonar_tipo;
use crate::codegen::{buscar, posicion, vista_pares, Codegen, EnumLayout, StructLayout};
use crate::texto::mismo_texto;

verus! {

/// The registry of enums: each enum's name with the tags of its variants.
pub open spec fn vista_enums(s: Seq<EnumLayout>) -> Seq<(Seq<char>, Seq<(Seq<char>, u32)>)> {
    s.map_values(|l: EnumLayout| (l.nombre@, vista_pares(l.variantes@)))
}

/// The registry of structs: each struct's name with the types of its fields.
pub open spec fn vista_structs(s: Seq<StructLayout>) -> Seq<(Seq<char>, Seq<(Seq<char>, SpecTipo)>)> {
    s.map_values(|l: StructLayout| (l.nombre@, vista_pares(l.tipos@)))
}

/// The tag of `variante` in the enum `enum_nombre`, if both are registered.
pub open spec fn indice_variante(
    enums: Seq<(Seq<char>, Seq<(Seq<char>, u32)>)>,
    enum_nombre: Seq<char>,
    variante: Seq<char>,
) -> Option<u32> {
    match buscar(enums, enum_nombre) {
        Some(vs) => buscar(vs, variante),
        None => None,
    }
}

/// The type of the field `campo` of the struct `s`; `Entero32` when either is unknown.
pub open spec fn tipo_de_campo(
    structs: Seq<(Seq<char>, Seq<(Seq<char>, SpecTipo)>)>,
    s: Seq<char>,
    campo: Seq<char>,
) -> SpecTipo {
    match buscar(structs, s) {
        Some(cs) => match buscar(cs, campo) {
            Some(t) => t,
            None => SpecTipo::Entero32,
        },
        None => SpecTipo::Entero32,
    }
}

/// Whether one of the closure parameters `ps` is named `n`.
pub open spec fn parametro_nombrado(ps: Seq<(Seq<char>, Option<SpecTipo>)>, n: Seq<char>) -> bool {
    exists|j: int| 0 <= j < ps.len() && (#[trigger] ps[j]).0 == n
}

/// Whether `e` reads the variable `n`: through identifiers, operators, call
/// arguments, array and field accesses, ranges and the bodies of closures
/// that do not shadow `n`.
pub open spec fn usa_variable(e: SpecExpresion, n: Seq<char>) -> bool
    decreases e,
{
    match e {
        SpecExpresion::Identificador(m, _) => m == n,
        SpecExpresion::Binaria(a, _, b, _) => usa_variable(*a, n) || usa_variable(*b, n),
        SpecExpresion::Unaria(_, a, _) => usa_variable(*a, n),
        SpecExpresion::Llamada(l) => alguna_usa_variable(l.argumentos, n),
        SpecExpresion::AccesoArray(a, i, _) => usa_variable(*a, n) || usa_variable(*i, n),
        SpecExpresion::AccesoCampo(a, _, _) => usa_variable(*a, n),
        SpecExpresion::Rango(a, b, _, _) => usa_variable(*a, n) || usa_variable(*b, n),
        SpecExpresion::Closure(ps, c, _) => if parametro_nombrado(ps, n) {
            false
        } else {
            usa_variable(*c, n)
        },
        _ => false,
    }
}

pub open spec fn alguna_usa_variable(s: Seq<SpecExpresion>, n: Seq<char>) -> bool
    decreases s,
{
    if s.len() == 0 {
        false
    } else {
        alguna_usa_variable(s.drop_last(), n) || usa_variable(s.last(), n)
    }
}

/// The names of the functions that the compiler provides itself.
pub open spec fn es_nombre_builtin(f: Seq<char>) -> bool {
    ||| f == "imprimir"@
    ||| f == "imprimir_linea"@
    ||| f == "decir"@
    ||| f == "tamaño_de"@
    ||| f == "afirmar"@
    ||| f == "texto_nuevo"@
    ||| f == "texto_desde"@
    ||| f == "texto_agregar"@
    ||| f == "texto_longitud"@
    ||| f == "texto_tam"@
    ||| f == "texto_liberar"@
    ||| f == "texto_concatenar"@
    ||| f == "texto_subtexto"@
    ||| f == "texto_comparar"@
    ||| f == "texto_obtener_byte"@
    ||| f == "texto_a_entero"@
    ||| f == "texto_a_natural"@
    ||| f == "texto_a_flotante"@
    ||| f == "texto_a_booleano"@
    ||| f == "archivo_leer"@
    ||| f == "archivo_escribir"@
    ||| f == "archivo_existe"@
    ||| f == "abs"@
    ||| f == "max"@
    ||| f == "min"@
    ||| f == "raiz"@
    ||| f == "potencia"@
    ||| f == "seno"@
    ||| f == "coseno"@
    ||| f == "tangente"@
    ||| f == "arcseno"@
    ||| f == "arccoseno"@
    ||| f == "arctangente"@
    ||| f == "arctangente2"@
    ||| f == "senoh"@
    ||| f == "cosenoh"@
    ||| f == "tangenteh"@
    ||| f == "exp"@
    ||| f == "log"@
    ||| f == "log10"@
    ||| f == "piso"@
    ||| f == "techo"@
    ||| f == "fabs"@
    ||| f == "fmod"@
    ||| f == "seno_preciso"@
    ||| f == "coseno_preciso"@
    ||| f == "tangente_preciso"@
    ||| f == "exp_preciso"@
    ||| f == "log_preciso"@
    ||| f == "seno_rapido"@
    ||| f == "coseno_rapido"@
    ||| f == "seno_2pi"@
    ||| f == "coseno_2pi"@
    ||| f == "exp_rapido"@
    ||| f == "log_rapido"@
    ||| f == "seno_aprox"@
    ||| f == "vector_nuevo"@
    ||| f == "vector_agregar"@
    ||| f == "vector_obtener"@
    ||| f == "vector_longitud"@
    ||| f == "vector_tam"@
    ||| f == "vector_liberar"@
    ||| f == "dormir"@
    ||| f == "diccionario_nuevo"@
    ||| f == "diccionario_insertar"@
    ||| f == "diccionario_obtener"@
    ||| f == "diccionario_existe"@
    ||| f == "diccionario_eliminar"@
    ||| f == "diccionario_longitud"@
    ||| f == "diccionario_liberar"@
    ||| f == "conjunto_nuevo"@
    ||| f == "conjunto_insertar"@
    ||| f == "conjunto_contiene"@
    ||| f == "conjunto_eliminar"@
    ||| f == "conjunto_longitud"@
    ||| f == "conjunto_liberar"@
    ||| f == "tcp_vincular"@
    ||| f == "tcp_aceptar"@
    ||| f == "tcp_leer"@
    ||| f == "tcp_escribir"@
    ||| f == "tcp_cerrar"@
    ||| f == "canal_nuevo"@
    ||| f == "canal_enviar"@
    ||| f == "canal_recibir"@
    ||| f == "canal_cerrar"@
    ||| f == "canal_intentar"@
    ||| f == "proceso_crear"@
    ||| f == "proceso_esperar"@
    ||| f == "proceso_leer_salida_completa"@
    ||| f == "proceso_cerrar"@
    ||| f == "proceso_crear_con_pipes"@
    ||| f == "proceso_escribir"@
    ||| f == "proceso_leer_salida_chunk"@
    ||| f == "proceso_leer_error_chunk"@
    ||| f == "proceso_cerrar_entrada"@
    ||| f == "proceso_listo_para_leer"@
    ||| f == "proceso_cerrar_bidireccional"@
    ||| f == "tcp_conectar"@
    ||| f == "dns_resolver"@
    ||| f == "tcp_establecer_timeout"@
    ||| f == "tcp_datos_disponibles"@
    ||| f == "terminal_modo_raw"@
    ||| f == "terminal_leer_tecla"@
    ||| f == "entrada_leer"@
    ||| f == "argumentos"@
    ||| f == "fecha_unix"@
    ||| f == "fecha_ms"@
    ||| f == "dht_nuevo"@
    ||| f == "dht_publicar"@
    ||| f == "dht_consultar"@
    ||| f == "dht_bootstrap"@
    ||| f == "dht_cerrar"@
    ||| f == "cancelar"@
    ||| f == "texto_a_puntero"@
    ||| f == "como_entero64"@
    ||| f == "como_entero32"@
    ||| f == "como_entero8"@
    ||| f == "como_entero16"@
    ||| f == "como_flotante32"@
    ||| f == "como_flotante64"@
}

/// Some expression of the list reads `n` exactly when one of them does.
pub proof fn lema_alguna_usa(s: Seq<SpecExpresion>, n: Seq<char>)
    ensures
        alguna_usa_variable(s, n) <==> exists|i: int| 0 <= i < s.len() && usa_variable(#[trigger] s[i], n),
    decreases s.len(),
{
    if s.len() > 0 {
        lema_alguna_usa(s.drop_last(), n);
        if alguna_usa_variable(s.drop_last(), n) {
            let i = choose|i: int| 0 <= i < s.drop_last().len() && usa_variable(#[trigger] s.drop_last()[i], n);
            assert(s[i] == s.drop_last()[i]);
        }
        if exists|i: int| 0 <= i < s.len() && usa_variable(#[trigger] s[i], n) {
            let i = choose|i: int| 0 <= i < s.len() && usa_variable(#[trigger] s[i], n);
            if i < s.len() - 1 {
                assert(s.drop_last()[i] == s[i]);
            }
        }
    }
}

/// The model of a list of expressions is the list of their models.
pub proof fn lema_vista_expresiones(s: Seq<Expresion>)
    ensures
        vista_expresiones(s).len() == s.len(),
        forall|i: int| 0 <= i < s.len() ==> #[trigger] vista_expresiones(s)[i] == crate::ast::vista_expresion(s[i]),
    decreases s.len(),
{
    if s.len() > 0 {
        lema_vista_expresiones(s.drop_last());
    }
}

impl Codegen {
    /// The tag of `variante` in the enum `enum_nombre`.
    pub fn indice_variante_enum(&self, enum_nombre: &str, variante: &str) -> (r: Option<u32>)
        ensures
            r == indice_variante(vista_enums(self.enums@), enum_nombre@, variante@),
    {
        let ghost s = vista_enums(self.enums@);
        let mut i: usize = 0;
        assert(s.skip(0) =~= s);
        while i < self.enums.len()
            invariant
                i <= self.enums.len(),
                s == vista_enums(self.enums@),
                buscar(s, enum_nombre@) == buscar(s.skip(i as int), enum_nombre@),
            decreases self.enums.len() - i,
        {
            proof {
                assert(s.skip(i as int)[0] == s[i as int]);
                assert(s.skip(i as int).drop_first() =~= s.skip(i + 1));
            }
            if mismo_texto(self.enums[i].nombre.as_str(), enum_nombre) {
                return match posicion(&self.enums[i].variantes, variante) {
                    Some(j) => Some(self.enums[i].variantes[j].1),
                    None => None,
                };
            }
            i = i + 1;
        }
        assert(s.skip(i as int).len() == 0);
        None
    }

    /// The type of the field `nombre_campo` of the struct `nombre_struct`;
    /// `Entero32` when the struct or the field is not registered.
    pub fn buscar_tipo_campo(&self, nombre_struct: &str, nombre_campo: &str) -> (r: Tipo)
        ensures
            r@ == tipo_de_campo(vista_structs(self.structs@), nombre_struct@, nombre_campo@),
    {
        let ghost s = vista_structs(self.structs@);
        let mut i: usize = 0;
        assert(s.skip(0) =~= s);
        while i < self.structs.len()
            invariant
                i <= self.structs.len(),
                s == vista_structs(self.structs@),
                buscar(s, nombre_struct@) == buscar(s.skip(i as int), nombre_struct@),
            decreases self.structs.len() - i,
        {
            proof {
                assert(s.skip(i as int)[0] == s[i as int]);
                assert(s.skip(i as int).drop_first() =~= s.skip(i + 1));
            }
            if mismo_texto(self.structs[i].nombre.as_str(), nombre_struct) {
                return match posicion(&self.structs[i].tipos, nombre_campo) {
                    Some(j) => clonar_tipo(&self.structs[i].tipos[j].1),
                    None => Tipo::Entero32,
                };
            }
            i = i + 1;
        }
        assert(s.skip(i as int).len() == 0);
        Tipo::Entero32
    }

    /// Whether `expr` reads the variable `nombre`.
    #[verifier::loop_isolation(false)]
    pub fn expresion_usa_variable(&self, expr: &Expresion, nombre: &str) -> (r: bool)
        ensures
            r == usa_variable(expr@, nombre@),
        decreases expr,
    {
        match expr {
            Expresion::Identificador(n, _) => mismo_texto(n.as_str(), nombre),
            Expresion::Binaria(izq, _, der, _) => {
                self.expresion_usa_variable(izq, nombre) || self.expresion_usa_variable(der, nombre)
            },
            Expresion::Unaria(_, inner, _) => self.expresion_usa_variable(inner, nombre),
            Expresion::Llamada(llamada) => {
                let args = &llamada.argumentos;
                proof {
                    lema_vista_expresiones(args@);
                    lema_alguna_usa(vista_expresiones(args@), nombre@);
                }
                let mut i: usize = 0;
                while i < args.len()
                    invariant
                        i <= args.len(),
                        forall|j: int| 0 <= j < i ==> !usa_variable(#[trigger] vista_expresiones(args@)[j], nombre@),
                    decreases args.len() - i,
                {
                    proof {
                        assert(decreases_to!(*expr => llamada.argumentos));
                        assert(decreases_to!(*args => args@));
                        assert(decreases_to!(args@ => args@[i as int]));
                    }
                    if self.expresion_usa_variable(&args[i], nombre) {
                        assert(usa_variable(vista_expresiones(args@)[i as int], nombre@));
                        return true;
                    }
                    i = i + 1;
                }
                false
            },
            Expresion::AccesoArray(base, idx, _) => {
                self.expresion_usa_variable(base, nombre) || self.expresion_usa_variable(idx, nombre)
            },
            Expresion::AccesoCampo(base, _, _) => self.expresion_usa_variable(base, nombre),
            Expresion::Rango(inicio, fin, _, _) => {
                self.expresion_usa_variable(inicio, nombre) || self.expresion_usa_variable(fin, nombre)
            },
            Expresion::Closure(params, cuerpo, _) => {
                let ghost ps = vista_parametros_closure(params@);
                let mut i: usize = 0;
                while i < params.len()
                    invariant
                        i <= params.len(),
                        ps == vista_parametros_closure(params@),
                        forall|j: int| 0 <= j < i ==> (#[trigger] ps[j]).0 != nombre@,
                    decreases params.len() - i,
                {
                    if mismo_texto(params[i].0.as_str(), nombre) {
                        assert(ps[i as int].0 == nombre@);
                        return false;
                    }
                    i = i + 1;
                }
                self.expresion_usa_variable(cuerpo, nombre)
            },
            _ => false,
        }
    }

    /// Whether `llamada` goes to a function that the compiler provides itself.
    pub fn es_llamada_builtin(&self, llamada: &Llamada) -> (r: bool)
        ensures
            r == es_nombre_builtin(llamada.funcion@),
    {
        let f = llamada.funcion.as_str();
        if mismo_texto(f, "imprimir") {
            return true;
        }
        if mismo_texto(f, "imprimir_linea") {
            return true;
        }
        if mismo_texto(f, "decir") {
            return true;
        }
        if mismo_texto(f, "tamaño_de") {
            return true;
        }
        if mismo_texto(f, "afirmar") {
            return true;
        }
        if mismo_texto(f, "texto_nuevo") {
            return true;
        }
        if mismo_texto(f, "texto_desde") {
            return true;
        }
        if mismo_texto(f, "texto_agregar") {
            return true;
        }
        if mismo_texto(f, "texto_longitud") {
            return true;
        }
        if mismo_texto(f, "texto_tam") {
            return true;
        }
        if mismo_texto(f, "texto_liberar") {
            return true;
        }
        if mismo_texto(f, "texto_concatenar") {
            return true;
        }
        if mismo_texto(f, "texto_subtexto") {
            return true;
        }
        if mismo_texto(f, "texto_comparar") {
            return true;
        }
        if mismo_texto(f, "texto_obtener_byte") {
            return true;
        }
        if mismo_texto(f, "texto_a_entero") {
            return true;
        }
        if mismo_texto(f, "texto_a_natural") {
            return true;
        }
        if mismo_texto(f, "texto_a_flotante") {
            return true;
        }
        if mismo_texto(f, "texto_a_booleano") {
            return true;
        }
        if mismo_texto(f, "archivo_leer") {
            return true;
        }
        if mismo_texto(f, "archivo_escribir") {
            return true;
        }
        if mismo_texto(f, "archivo_existe") {
            return true;
        }
        if mismo_texto(f, "abs") {
            return true;
        }
        if mismo_texto(f, "max") {
            return true;
        }
        if mismo_texto(f, "min") {
            return true;
        }
        if mismo_texto(f, "raiz") {
            return true;
        }
        if mismo_texto(f, "potencia") {
            return true;
        }
        if mismo_texto(f, "seno") {
            return true;
        }
        if mismo_texto(f, "coseno") {
            return true;
        }
        if mismo_texto(f, "tangente") {
            return true;
        }
        if mismo_texto(f, "arcseno") {
            return true;
        }
        if mismo_texto(f, "arccoseno") {
            return true;
        }
        if mismo_texto(f, "arctangente") {
            return true;
        }
        if mismo_texto(f, "arctangente2") {
            return true;
        }
        if mismo_texto(f, "senoh") {
            return true;
        }
        if mismo_texto(f, "cosenoh") {
            return true;
        }
        if mismo_texto(f, "tangenteh") {
            return true;
        }
        if mismo_texto(f, "exp") {
            return true;
        }
        if mismo_texto(f, "log") {
            return true;
        }
        if mismo_texto(f, "log10") {
            return true;
        }
        if mismo_texto(f, "piso") {
            return true;
        }
        if mismo_texto(f, "techo") {
            return true;
        }
        if mismo_texto(f, "fabs") {
            return true;
        }
        if mismo_texto(f, "fmod") {
            return true;
        }
        if mismo_texto(f, "seno_preciso") {
            return true;
        }
        if mismo_texto(f, "coseno_preciso") {
            return true;
        }
        if mismo_texto(f, "tangente_preciso") {
            return true;
        }
        if mismo_texto(f, "exp_preciso") {
            return true;
        }
        if mismo_texto(f, "log_preciso") {
            return true;
        }
        if mismo_texto(f, "seno_rapido") {
            return true;
        }
        if mismo_texto(f, "coseno_rapido") {
            return true;
        }
        if mismo_texto(f, "seno_2pi") {
            return true;
        }
        if mismo_texto(f, "coseno_2pi") {
            return true;
        }
        if mismo_texto(f, "exp_rapido") {
            return true;
        }
        if mismo_texto(f, "log_rapido") {
            return true;
        }
        if mismo_texto(f, "seno_aprox") {
            return true;
        }
        if mismo_texto(f, "vector_nuevo") {
            return true;
        }
        if mismo_texto(f, "vector_agregar") {
            return true;
        }
        if mismo_texto(f, "vector_obtener") {
            return true;
        }
        if mismo_texto(f, "vector_longitud") {
            return true;
        }
        if mismo_texto(f, "vector_tam") {
            return true;
        }
        if mismo_texto(f, "vector_liberar") {
            return true;
        }
        if mismo_texto(f, "dormir") {
            return true;
        }
        if mismo_texto(f, "diccionario_nuevo") {
            return true;
        }
        if mismo_texto(f, "diccionario_insertar") {
            return true;
        }
        if mismo_texto(f, "diccionario_obtener") {
            return true;
        }
        if mismo_texto(f, "diccionario_existe") {
            return true;
        }
        if mismo_texto(f, "diccionario_eliminar") {
            return true;
        }
        if mismo_texto(f, "diccionario_longitud") {
            return true;
        }
        if mismo_texto(f, "diccionario_liberar") {
            return true;
        }
        if mismo_texto(f, "conjunto_nuevo") {
            return true;
        }
        if mismo_texto(f, "conjunto_insertar") {
            return true;
        }
        if mismo_texto(f, "conjunto_contiene") {
            return true;
        }
        if mismo_texto(f, "conjunto_eliminar") {
            return true;
        }
        if mismo_texto(f, "conjunto_longitud") {
            return true;
        }
        if mismo_texto(f, "conjunto_liberar") {
            return true;
        }
        if mismo_texto(f, "tcp_vincular") {
            return true;
        }
        if mismo_texto(f, "tcp_aceptar") {
            return true;
        }
        if mismo_texto(f, "tcp_leer") {
            return true;
        }
        if mismo_texto(f, "tcp_escribir") {
            return true;
        }
        if mismo_texto(f, "tcp_cerrar") {
            return true;
        }
        if mismo_texto(f, "canal_nuevo") {
            return true;
        }
        if mismo_texto(f, "canal_enviar") {
            return true;
        }
        if mismo_texto(f, "canal_recibir") {
            return true;
        }
        if mismo_texto(f, "canal_cerrar") {
            return true;
        }
        if mismo_texto(f, "canal_intentar") {
            return true;
        }
        if mismo_texto(f, "proceso_crear") {
            return true;
        }
        if mismo_texto(f, "proceso_esperar") {
            return true;
        }
        if mismo_texto(f, "proceso_leer_salida_completa") {
            return true;
        }
        if mismo_texto(f, "proceso_cerrar") {
            return true;
        }
        if mismo_texto(f, "proceso_crear_con_pipes") {
            return true;
        }
        if mismo_texto(f, "proceso_escribir") {
            return true;
        }
        if mismo_texto(f, "proceso_leer_salida_chunk") {
            return true;
        }
        if mismo_texto(f, "proceso_leer_error_chunk") {
            return true;
        }
        if mismo_texto(f, "proceso_cerrar_entrada") {
            return true;
        }
        if mismo_texto(f, "proceso_listo_para_leer") {
            return true;
        }
        if mismo_texto(f, "proceso_cerrar_bidireccional") {
            return true;
        }
        if mismo_texto(f, "tcp_conectar") {
            return true;
        }
        if mismo_texto(f, "dns_resolver") {
            return true;
        }
        if mismo_texto(f, "tcp_establecer_timeout") {
            return true;
        }
        if mismo_texto(f, "tcp_datos_disponibles") {
            return true;
        }
        if mismo_texto(f, "terminal_modo_raw") {
            return true;
        }
        if mismo_texto(f, "terminal_leer_tecla") {
            return true;
        }
        if mismo_texto(f, "entrada_leer") {
            return true;
        }
        if mismo_texto(f, "argumentos") {
            return true;
        }
        if mismo_texto(f, "fecha_unix") {
            return true;
        }
        if mismo_texto(f, "fecha_ms") {
            return true;
        }
        if mismo_texto(f, "dht_nuevo") {
            return true;
        }
        if mismo_texto(f, "dht_publicar") {
            return true;
        }
        if mismo_texto(f, "dht_consultar") {
            return true;
        }
        if mismo_texto(f, "dht_bootstrap") {
            return true;
        }
        if mismo_texto(f, "dht_cerrar") {
            return true;
        }
        if mismo_texto(f, "cancelar") {
            return true;
        }
        if mismo_texto(f, "texto_a_puntero") {
            return true;
        }
        if mismo_texto(f, "como_entero64") {
            return true;
        }
        if mismo_texto(f, "como_entero32") {
            return true;
        }
        if mismo_texto(f, "como_entero8") {
            return true;
        }
        if mismo_texto(f, "como_entero16") {
            return true;
        }
        if mismo_texto(f, "como_flotante32") {
            return true;
        }
        if mismo_texto(f, "como_flotante64") {
            return true;
        }
        false
    }
}

} // verus!
