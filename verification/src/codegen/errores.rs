//! Which emitter handles each built-in call, and the errors that code
//! generation reports for an expression before it compiles any part of it.

use vstd::prelude::*;
use vstd::string::StringExecFns;
use crate::ast::{Expresion, Literal, Llamada, SpecExpresion, SpecLiteral, SpecTipo, Tipo};
use crate::codegen::expresiones::es_nombre_builtin;
use crate::codegen::{CategoriaError, Codegen, EnumLayout, ErrorCompilacion, StructLayout};
use crate::texto::mismo_texto;

verus! {

/// What a built-in's emitter takes besides the call's arguments.
#[derive(Debug, PartialEq)]
pub enum ExtraManejador {
    /// Nothing more.
    Ninguno,
    /// Whether the printed text ends the line.
    ConNewline(bool),
    /// The numeric type that the value is converted to.
    Destino(Tipo),
}

/// The model of an [`ExtraManejador`].
pub enum SpecExtra {
    Ninguno,
    ConNewline(bool),
    Destino(SpecTipo),
}

/// The emitter of a built-in call: the name of the code generator's method
/// and what it takes besides the arguments.
#[derive(Debug, PartialEq)]
pub struct Manejador {
    pub metodo: String,
    pub extra: ExtraManejador,
}

impl View for Manejador {
    type V = (Seq<char>, SpecExtra);

    open spec fn view(&self) -> (Seq<char>, SpecExtra) {
        (
            self.metodo@,
            match self.extra {
                ExtraManejador::Ninguno => SpecExtra::Ninguno,
                ExtraManejador::ConNewline(b) => SpecExtra::ConNewline(b),
                ExtraManejador::Destino(t) => SpecExtra::Destino(t@),
            },
        )
    }
}

/// The emitter of the built-in `f`, if `f` is one.
pub open spec fn manejador_de(f: Seq<char>) -> Option<(Seq<char>, SpecExtra)> {
    if f == "imprimir"@ {
        Some(("builtin_imprimir"@, SpecExtra::ConNewline(false)))
    } else if f == "imprimir_linea"@ {
        Some(("builtin_imprimir"@, SpecExtra::ConNewline(true)))
    } else if f == "decir"@ {
        Some(("builtin_imprimir"@, SpecExtra::ConNewline(true)))
    } else if f == "tamaño_de"@ {
        Some(("builtin_tamano_de"@, SpecExtra::Ninguno))
    } else if f == "afirmar"@ {
        Some(("builtin_afirmar"@, SpecExtra::Ninguno))
    } else if f == "texto_nuevo"@ {
        Some(("builtin_texto_nuevo"@, SpecExtra::Ninguno))
    } else if f == "texto_desde"@ {
        Some(("builtin_texto_desde"@, SpecExtra::Ninguno))
    } else if f == "texto_agregar"@ {
        Some(("builtin_texto_agregar"@, SpecExtra::Ninguno))
    } else if f == "texto_longitud"@ {
        Some(("builtin_texto_longitud"@, SpecExtra::Ninguno))
    } else if f == "texto_tam"@ {
        Some(("builtin_texto_longitud"@, SpecExtra::Ninguno))
    } else if f == "texto_liberar"@ {
        Some(("builtin_texto_liberar"@, SpecExtra::Ninguno))
    } else if f == "texto_concatenar"@ {
        Some(("builtin_texto_concatenar"@, SpecExtra::Ninguno))
    } else if f == "texto_subtexto"@ {
        Some(("builtin_texto_subtexto"@, SpecExtra::Ninguno))
    } else if f == "texto_comparar"@ {
        Some(("builtin_texto_comparar"@, SpecExtra::Ninguno))
    } else if f == "texto_obtener_byte"@ {
        Some(("builtin_texto_obtener_byte"@, SpecExtra::Ninguno))
    } else if f == "texto_a_entero"@ {
        Some(("builtin_texto_a_entero"@, SpecExtra::Ninguno))
    } else if f == "texto_a_natural"@ {
        Some(("builtin_texto_a_natural"@, SpecExtra::Ninguno))
    } else if f == "texto_a_flotante"@ {
        Some(("builtin_texto_a_flotante"@, SpecExtra::Ninguno))
    } else if f == "texto_a_booleano"@ {
        Some(("builtin_texto_a_booleano"@, SpecExtra::Ninguno))
    } else if f == "texto_a_puntero"@ {
        Some(("builtin_texto_a_puntero"@, SpecExtra::Ninguno))
    } else if f == "como_entero64"@ {
        Some(("builtin_como_entero64"@, SpecExtra::Ninguno))
    } else if f == "como_entero32"@ {
        Some(("builtin_como_entero32"@, SpecExtra::Ninguno))
    } else if f == "como_entero8"@ {
        Some(("builtin_conversion_numerica"@, SpecExtra::Destino(SpecTipo::Entero8)))
    } else if f == "como_entero16"@ {
        Some(("builtin_conversion_numerica"@, SpecExtra::Destino(SpecTipo::Entero16)))
    } else if f == "como_flotante32"@ {
        Some(("builtin_conversion_numerica"@, SpecExtra::Destino(SpecTipo::Flotante32)))
    } else if f == "como_flotante64"@ {
        Some(("builtin_conversion_numerica"@, SpecExtra::Destino(SpecTipo::Flotante64)))
    } else if f == "archivo_leer"@ {
        Some(("builtin_archivo_leer"@, SpecExtra::Ninguno))
    } else if f == "archivo_escribir"@ {
        Some(("builtin_archivo_escribir"@, SpecExtra::Ninguno))
    } else if f == "archivo_existe"@ {
        Some(("builtin_archivo_existe"@, SpecExtra::Ninguno))
    } else if f == "abs"@ {
        Some(("builtin_abs"@, SpecExtra::Ninguno))
    } else if f == "max"@ {
        Some(("builtin_max"@, SpecExtra::Ninguno))
    } else if f == "min"@ {
        Some(("builtin_min"@, SpecExtra::Ninguno))
    } else if f == "raiz"@ {
        Some(("builtin_raiz"@, SpecExtra::Ninguno))
    } else if f == "potencia"@ {
        Some(("builtin_potencia"@, SpecExtra::Ninguno))
    } else if f == "seno"@ {
        Some(("builtin_seno"@, SpecExtra::Ninguno))
    } else if f == "coseno"@ {
        Some(("builtin_coseno"@, SpecExtra::Ninguno))
    } else if f == "tangente"@ {
        Some(("builtin_tangente"@, SpecExtra::Ninguno))
    } else if f == "arcseno"@ {
        Some(("builtin_arcseno"@, SpecExtra::Ninguno))
    } else if f == "arccoseno"@ {
        Some(("builtin_arccoseno"@, SpecExtra::Ninguno))
    } else if f == "arctangente"@ {
        Some(("builtin_arctangente"@, SpecExtra::Ninguno))
    } else if f == "arctangente2"@ {
        Some(("builtin_arctangente2"@, SpecExtra::Ninguno))
    } else if f == "senoh"@ {
        Some(("builtin_seno_hiperbolico"@, SpecExtra::Ninguno))
    } else if f == "cosenoh"@ {
        Some(("builtin_coseno_hiperbolico"@, SpecExtra::Ninguno))
    } else if f == "tangenteh"@ {
        Some(("builtin_tangente_hiperbolica"@, SpecExtra::Ninguno))
    } else if f == "exp"@ {
        Some(("builtin_exponencial"@, SpecExtra::Ninguno))
    } else if f == "log"@ {
        Some(("builtin_logaritmo"@, SpecExtra::Ninguno))
    } else if f == "log10"@ {
        Some(("builtin_logaritmo10"@, SpecExtra::Ninguno))
    } else if f == "piso"@ {
        Some(("builtin_piso"@, SpecExtra::Ninguno))
    } else if f == "techo"@ {
        Some(("builtin_techo"@, SpecExtra::Ninguno))
    } else if f == "fabs"@ {
        Some(("builtin_valor_absoluto"@, SpecExtra::Ninguno))
    } else if f == "fmod"@ {
        Some(("builtin_modulo_flotante"@, SpecExtra::Ninguno))
    } else if f == "seno_preciso"@ {
        Some(("builtin_seno"@, SpecExtra::Ninguno))
    } else if f == "coseno_preciso"@ {
        Some(("builtin_coseno"@, SpecExtra::Ninguno))
    } else if f == "tangente_preciso"@ {
        Some(("builtin_tangente"@, SpecExtra::Ninguno))
    } else if f == "exp_preciso"@ {
        Some(("builtin_exponencial"@, SpecExtra::Ninguno))
    } else if f == "log_preciso"@ {
        Some(("builtin_logaritmo"@, SpecExtra::Ninguno))
    } else if f == "seno_rapido"@ {
        Some(("builtin_seno_rapido"@, SpecExtra::Ninguno))
    } else if f == "coseno_rapido"@ {
        Some(("builtin_coseno_rapido"@, SpecExtra::Ninguno))
    } else if f == "seno_2pi"@ {
        Some(("builtin_seno_2pi"@, SpecExtra::Ninguno))
    } else if f == "coseno_2pi"@ {
        Some(("builtin_coseno_2pi"@, SpecExtra::Ninguno))
    } else if f == "exp_rapido"@ {
        Some(("builtin_exponencial_rapido"@, SpecExtra::Ninguno))
    } else if f == "log_rapido"@ {
        Some(("builtin_logaritmo_rapido"@, SpecExtra::Ninguno))
    } else if f == "seno_aprox"@ {
        Some(("builtin_seno_aprox"@, SpecExtra::Ninguno))
    } else if f == "vector_nuevo"@ {
        Some(("builtin_vector_nuevo"@, SpecExtra::Ninguno))
    } else if f == "vector_agregar"@ {
        Some(("builtin_vector_agregar"@, SpecExtra::Ninguno))
    } else if f == "vector_obtener"@ {
        Some(("builtin_vector_obtener"@, SpecExtra::Ninguno))
    } else if f == "vector_longitud"@ {
        Some(("builtin_vector_longitud"@, SpecExtra::Ninguno))
    } else if f == "vector_tam"@ {
        Some(("builtin_vector_longitud"@, SpecExtra::Ninguno))
    } else if f == "vector_liberar"@ {
        Some(("builtin_vector_liberar"@, SpecExtra::Ninguno))
    } else if f == "dormir"@ {
        Some(("builtin_dormir"@, SpecExtra::Ninguno))
    } else if f == "tcp_vincular"@ {
        Some(("builtin_tcp_vincular"@, SpecExtra::Ninguno))
    } else if f == "tcp_aceptar"@ {
        Some(("builtin_tcp_aceptar"@, SpecExtra::Ninguno))
    } else if f == "tcp_leer"@ {
        Some(("builtin_tcp_leer"@, SpecExtra::Ninguno))
    } else if f == "tcp_escribir"@ {
        Some(("builtin_tcp_escribir"@, SpecExtra::Ninguno))
    } else if f == "tcp_cerrar"@ {
        Some(("builtin_tcp_cerrar"@, SpecExtra::Ninguno))
    } else if f == "canal_nuevo"@ {
        Some(("builtin_canal_nuevo"@, SpecExtra::Ninguno))
    } else if f == "canal_enviar"@ {
        Some(("builtin_canal_enviar"@, SpecExtra::Ninguno))
    } else if f == "canal_recibir"@ {
        Some(("builtin_canal_recibir"@, SpecExtra::Ninguno))
    } else if f == "canal_cerrar"@ {
        Some(("builtin_canal_cerrar"@, SpecExtra::Ninguno))
    } else if f == "cancelar"@ {
        Some(("builtin_cancelar"@, SpecExtra::Ninguno))
    } else if f == "canal_intentar"@ {
        Some(("builtin_canal_intentar"@, SpecExtra::Ninguno))
    } else if f == "proceso_crear"@ {
        Some(("builtin_proceso_crear"@, SpecExtra::Ninguno))
    } else if f == "proceso_esperar"@ {
        Some(("builtin_proceso_esperar"@, SpecExtra::Ninguno))
    } else if f == "proceso_leer_salida_completa"@ {
        Some(("builtin_proceso_leer_salida"@, SpecExtra::Ninguno))
    } else if f == "proceso_cerrar"@ {
        Some(("builtin_proceso_cerrar"@, SpecExtra::Ninguno))
    } else if f == "proceso_crear_con_pipes"@ {
        Some(("builtin_proceso_crear_con_pipes"@, SpecExtra::Ninguno))
    } else if f == "proceso_escribir"@ {
        Some(("builtin_proceso_escribir"@, SpecExtra::Ninguno))
    } else if f == "proceso_leer_salida_chunk"@ {
        Some(("builtin_proceso_leer_salida_chunk"@, SpecExtra::Ninguno))
    } else if f == "proceso_leer_error_chunk"@ {
        Some(("builtin_proceso_leer_error_chunk"@, SpecExtra::Ninguno))
    } else if f == "proceso_cerrar_entrada"@ {
        Some(("builtin_proceso_cerrar_entrada"@, SpecExtra::Ninguno))
    } else if f == "proceso_listo_para_leer"@ {
        Some(("builtin_proceso_listo_para_leer"@, SpecExtra::Ninguno))
    } else if f == "proceso_cerrar_bidireccional"@ {
        Some(("builtin_proceso_cerrar_bidireccional"@, SpecExtra::Ninguno))
    } else if f == "tcp_conectar"@ {
        Some(("builtin_tcp_conectar"@, SpecExtra::Ninguno))
    } else if f == "dns_resolver"@ {
        Some(("builtin_dns_resolver"@, SpecExtra::Ninguno))
    } else if f == "tcp_establecer_timeout"@ {
        Some(("builtin_tcp_establecer_timeout"@, SpecExtra::Ninguno))
    } else if f == "tcp_datos_disponibles"@ {
        Some(("builtin_tcp_datos_disponibles"@, SpecExtra::Ninguno))
    } else if f == "terminal_modo_raw"@ {
        Some(("builtin_terminal_modo_raw"@, SpecExtra::Ninguno))
    } else if f == "terminal_leer_tecla"@ {
        Some(("builtin_terminal_leer_tecla"@, SpecExtra::Ninguno))
    } else if f == "entrada_leer"@ {
        Some(("builtin_entrada_leer"@, SpecExtra::Ninguno))
    } else if f == "argumentos"@ {
        Some(("builtin_argumentos"@, SpecExtra::Ninguno))
    } else if f == "fecha_unix"@ {
        Some(("builtin_fecha_unix"@, SpecExtra::Ninguno))
    } else if f == "fecha_ms"@ {
        Some(("builtin_fecha_ms"@, SpecExtra::Ninguno))
    } else if f == "dht_nuevo"@ {
        Some(("builtin_dht_nuevo"@, SpecExtra::Ninguno))
    } else if f == "dht_publicar"@ {
        Some(("builtin_dht_publicar"@, SpecExtra::Ninguno))
    } else if f == "dht_consultar"@ {
        Some(("builtin_dht_consultar"@, SpecExtra::Ninguno))
    } else if f == "dht_bootstrap"@ {
        Some(("builtin_dht_bootstrap"@, SpecExtra::Ninguno))
    } else if f == "dht_cerrar"@ {
        Some(("builtin_dht_cerrar"@, SpecExtra::Ninguno))
    } else if f == "diccionario_nuevo"@ {
        Some(("builtin_diccionario_nuevo"@, SpecExtra::Ninguno))
    } else if f == "diccionario_insertar"@ {
        Some(("builtin_diccionario_insertar"@, SpecExtra::Ninguno))
    } else if f == "diccionario_obtener"@ {
        Some(("builtin_diccionario_obtener"@, SpecExtra::Ninguno))
    } else if f == "diccionario_existe"@ {
        Some(("builtin_diccionario_existe"@, SpecExtra::Ninguno))
    } else if f == "diccionario_eliminar"@ {
        Some(("builtin_diccionario_eliminar"@, SpecExtra::Ninguno))
    } else if f == "diccionario_longitud"@ {
        Some(("builtin_diccionario_longitud"@, SpecExtra::Ninguno))
    } else if f == "diccionario_liberar"@ {
        Some(("builtin_diccionario_liberar"@, SpecExtra::Ninguno))
    } else if f == "conjunto_nuevo"@ {
        Some(("builtin_conjunto_nuevo"@, SpecExtra::Ninguno))
    } else if f == "conjunto_insertar"@ {
        Some(("builtin_conjunto_insertar"@, SpecExtra::Ninguno))
    } else if f == "conjunto_contiene"@ {
        Some(("builtin_conjunto_contiene"@, SpecExtra::Ninguno))
    } else if f == "conjunto_eliminar"@ {
        Some(("builtin_conjunto_eliminar"@, SpecExtra::Ninguno))
    } else if f == "conjunto_longitud"@ {
        Some(("builtin_conjunto_longitud"@, SpecExtra::Ninguno))
    } else if f == "conjunto_liberar"@ {
        Some(("builtin_conjunto_liberar"@, SpecExtra::Ninguno))
    } else {
        None
    }
}

/// The error code of a built-in call without an emitter.
pub const CODIGO_BUILTIN_NO_IMPLEMENTADA: u32 = 80;

/// The message of a built-in call of `f` without an emitter.
pub open spec fn mensaje_no_implementada(f: Seq<char>) -> Seq<char> {
    "Función built-in '"@ + f + "' no implementada"@
}

fn error_no_implementada(f: &str) -> (e: ErrorCompilacion)
    ensures
        e.categoria == CategoriaError::Interno,
        e.codigo == CODIGO_BUILTIN_NO_IMPLEMENTADA,
        e.mensaje@ == mensaje_no_implementada(f@),
{
    let mut m = String::from_str("Función built-in '");
    m.append(f);
    m.append("' no implementada");
    ErrorCompilacion { categoria: CategoriaError::Interno, codigo: CODIGO_BUILTIN_NO_IMPLEMENTADA, mensaje: m }
}

/// Every built-in has an emitter, and only built-ins have one.
pub proof fn ley_manejador_de_cada_builtin(f: Seq<char>)
    ensures
        manejador_de(f) is Some <==> es_nombre_builtin(f),
{
}

/// The emitter of the built-in call `llamada`, or the error reported when it
/// has none.
pub fn manejador_builtin(llamada: &Llamada) -> (r: Result<Manejador, ErrorCompilacion>)
    ensures
        match r {
            Ok(m) => manejador_de(llamada.funcion@) == Some(m@),
            Err(e) => manejador_de(llamada.funcion@) is None && e.categoria == CategoriaError::Interno && e.codigo
                == CODIGO_BUILTIN_NO_IMPLEMENTADA && e.mensaje@ == mensaje_no_implementada(llamada.funcion@),
        },
{
    let f = llamada.funcion.as_str();
    let (metodo, extra) = if mismo_texto(f, "imprimir") {
        ("builtin_imprimir", ExtraManejador::ConNewline(false))
    } else if mismo_texto(f, "imprimir_linea") {
        ("builtin_imprimir", ExtraManejador::ConNewline(true))
    } else if mismo_texto(f, "decir") {
        ("builtin_imprimir", ExtraManejador::ConNewline(true))
    } else if mismo_texto(f, "tamaño_de") {
        ("builtin_tamano_de", ExtraManejador::Ninguno)
    } else if mismo_texto(f, "afirmar") {
        ("builtin_afirmar", ExtraManejador::Ninguno)
    } else if mismo_texto(f, "texto_nuevo") {
        ("builtin_texto_nuevo", ExtraManejador::Ninguno)
    } else if mismo_texto(f, "texto_desde") {
        ("builtin_texto_desde", ExtraManejador::Ninguno)
    } else if mismo_texto(f, "texto_agregar") {
        ("builtin_texto_agregar", ExtraManejador::Ninguno)
    } else if mismo_texto(f, "texto_longitud") {
        ("builtin_texto_longitud", ExtraManejador::Ninguno)
    } else if mismo_texto(f, "texto_tam") {
        ("builtin_texto_longitud", ExtraManejador::Ninguno)
    } else if mismo_texto(f, "texto_liberar") {
        ("builtin_texto_liberar", ExtraManejador::Ninguno)
    } else if mismo_texto(f, "texto_concatenar") {
        ("builtin_texto_concatenar", ExtraManejador::Ninguno)
    } else if mismo_texto(f, "texto_subtexto") {
        ("builtin_texto_subtexto", ExtraManejador::Ninguno)
    } else if mismo_texto(f, "texto_comparar") {
        ("builtin_texto_comparar", ExtraManejador::Ninguno)
    } else if mismo_texto(f, "texto_obtener_byte") {
        ("builtin_texto_obtener_byte", ExtraManejador::Ninguno)
    } else if mismo_texto(f, "texto_a_entero") {
        ("builtin_texto_a_entero", ExtraManejador::Ninguno)
    } else if mismo_texto(f, "texto_a_natural") {
        ("builtin_texto_a_natural", ExtraManejador::Ninguno)
    } else if mismo_texto(f, "texto_a_flotante") {
        ("builtin_texto_a_flotante", ExtraManejador::Ninguno)
    } else if mismo_texto(f, "texto_a_booleano") {
        ("builtin_texto_a_booleano", ExtraManejador::Ninguno)
    } else if mismo_texto(f, "texto_a_puntero") {
        ("builtin_texto_a_puntero", ExtraManejador::Ninguno)
    } else if mismo_texto(f, "como_entero64") {
        ("builtin_como_entero64", ExtraManejador::Ninguno)
    } else if mismo_texto(f, "como_entero32") {
        ("builtin_como_entero32", ExtraManejador::Ninguno)
    } else if mismo_texto(f, "como_entero8") {
        ("builtin_conversion_numerica", ExtraManejador::Destino(Tipo::Entero8))
    } else if mismo_texto(f, "como_entero16") {
        ("builtin_conversion_numerica", ExtraManejador::Destino(Tipo::Entero16))
    } else if mismo_texto(f, "como_flotante32") {
        ("builtin_conversion_numerica", ExtraManejador::Destino(Tipo::Flotante32))
    } else if mismo_texto(f, "como_flotante64") {
        ("builtin_conversion_numerica", ExtraManejador::Destino(Tipo::Flotante64))
    } else if mismo_texto(f, "archivo_leer") {
        ("builtin_archivo_leer", ExtraManejador::Ninguno)
    } else if mismo_texto(f, "archivo_escribir") {
        ("builtin_archivo_escribir", ExtraManejador::Ninguno)
    } else if mismo_texto(f, "archivo_existe") {
        ("builtin_archivo_existe", ExtraManejador::Ninguno)
    } else if mismo_texto(f, "abs") {
        ("builtin_abs", ExtraManejador::Ninguno)
    } else if mismo_texto(f, "max") {
        ("builtin_max", ExtraManejador::Ninguno)
    } else if mismo_texto(f, "min") {
        ("builtin_min", ExtraManejador::Ninguno)
    } else if mismo_texto(f, "raiz") {
        ("builtin_raiz", ExtraManejador::Ninguno)
    } else if mismo_texto(f, "potencia") {
        ("builtin_potencia", ExtraManejador::Ninguno)
    } else if mismo_texto(f, "seno") {
        ("builtin_seno", ExtraManejador::Ninguno)
    } else if mismo_texto(f, "coseno") {
        ("builtin_coseno", ExtraManejador::Ninguno)
    } else if mismo_texto(f, "tangente") {
        ("builtin_tangente", ExtraManejador::Ninguno)
    } else if mismo_texto(f, "arcseno") {
        ("builtin_arcseno", ExtraManejador::Ninguno)
    } else if mismo_texto(f, "arccoseno") {
        ("builtin_arccoseno", ExtraManejador::Ninguno)
    } else if mismo_texto(f, "arctangente") {
        ("builtin_arctangente", ExtraManejador::Ninguno)
    } else if mismo_texto(f, "arctangente2") {
        ("builtin_arctangente2", ExtraManejador::Ninguno)
    } else if mismo_texto(f, "senoh") {
        ("builtin_seno_hiperbolico", ExtraManejador::Ninguno)
    } else if mismo_texto(f, "cosenoh") {
        ("builtin_coseno_hiperbolico", ExtraManejador::Ninguno)
    } else if mismo_texto(f, "tangenteh") {
        ("builtin_tangente_hiperbolica", ExtraManejador::Ninguno)
    } else if mismo_texto(f, "exp") {
        ("builtin_exponencial", ExtraManejador::Ninguno)
    } else if mismo_texto(f, "log") {
        ("builtin_logaritmo", ExtraManejador::Ninguno)
    } else if mismo_texto(f, "log10") {
        ("builtin_logaritmo10", ExtraManejador::Ninguno)
    } else if mismo_texto(f, "piso") {
        ("builtin_piso", ExtraManejador::Ninguno)
    } else if mismo_texto(f, "techo") {
        ("builtin_techo", ExtraManejador::Ninguno)
    } else if mismo_texto(f, "fabs") {
        ("builtin_valor_absoluto", ExtraManejador::Ninguno)
    } else if mismo_texto(f, "fmod") {
        ("builtin_modulo_flotante", ExtraManejador::Ninguno)
    } else if mismo_texto(f, "seno_preciso") {
        ("builtin_seno", ExtraManejador::Ninguno)
    } else if mismo_texto(f, "coseno_preciso") {
        ("builtin_coseno", ExtraManejador::Ninguno)
    } else if mismo_texto(f, "tangente_preciso") {
        ("builtin_tangente", ExtraManejador::Ninguno)
    } else if mismo_texto(f, "exp_preciso") {
        ("builtin_exponencial", ExtraManejador::Ninguno)
    } else if mismo_texto(f, "log_preciso") {
        ("builtin_logaritmo", ExtraManejador::Ninguno)
    } else if mismo_texto(f, "seno_rapido") {
        ("builtin_seno_rapido", ExtraManejador::Ninguno)
    } else if mismo_texto(f, "coseno_rapido") {
        ("builtin_coseno_rapido", ExtraManejador::Ninguno)
    } else if mismo_texto(f, "seno_2pi") {
        ("builtin_seno_2pi", ExtraManejador::Ninguno)
    } else if mismo_texto(f, "coseno_2pi") {
        ("builtin_coseno_2pi", ExtraManejador::Ninguno)
    } else if mismo_texto(f, "exp_rapido") {
        ("builtin_exponencial_rapido", ExtraManejador::Ninguno)
    } else if mismo_texto(f, "log_rapido") {
        ("builtin_logaritmo_rapido", ExtraManejador::Ninguno)
    } else if mismo_texto(f, "seno_aprox") {
        ("builtin_seno_aprox", ExtraManejador::Ninguno)
    } else if mismo_texto(f, "vector_nuevo") {
        ("builtin_vector_nuevo", ExtraManejador::Ninguno)
    } else if mismo_texto(f, "vector_agregar") {
        ("builtin_vector_agregar", ExtraManejador::Ninguno)
    } else if mismo_texto(f, "vector_obtener") {
        ("builtin_vector_obtener", ExtraManejador::Ninguno)
    } else if mismo_texto(f, "vector_longitud") {
        ("builtin_vector_longitud", ExtraManejador::Ninguno)
    } else if mismo_texto(f, "vector_tam") {
        ("builtin_vector_longitud", ExtraManejador::Ninguno)
    } else if mismo_texto(f, "vector_liberar") {
        ("builtin_vector_liberar", ExtraManejador::Ninguno)
    } else if mismo_texto(f, "dormir") {
        ("builtin_dormir", ExtraManejador::Ninguno)
    } else if mismo_texto(f, "tcp_vincular") {
        ("builtin_tcp_vincular", ExtraManejador::Ninguno)
    } else if mismo_texto(f, "tcp_aceptar") {
        ("builtin_tcp_aceptar", ExtraManejador::Ninguno)
    } else if mismo_texto(f, "tcp_leer") {
        ("builtin_tcp_leer", ExtraManejador::Ninguno)
    } else if mismo_texto(f, "tcp_escribir") {
        ("builtin_tcp_escribir", ExtraManejador::Ninguno)
    } else if mismo_texto(f, "tcp_cerrar") {
        ("builtin_tcp_cerrar", ExtraManejador::Ninguno)
    } else if mismo_texto(f, "canal_nuevo") {
        ("builtin_canal_nuevo", ExtraManejador::Ninguno)
    } else if mismo_texto(f, "canal_enviar") {
        ("builtin_canal_enviar", ExtraManejador::Ninguno)
    } else if mismo_texto(f, "canal_recibir") {
        ("builtin_canal_recibir", ExtraManejador::Ninguno)
    } else if mismo_texto(f, "canal_cerrar") {
        ("builtin_canal_cerrar", ExtraManejador::Ninguno)
    } else if mismo_texto(f, "cancelar") {
        ("builtin_cancelar", ExtraManejador::Ninguno)
    } else if mismo_texto(f, "canal_intentar") {
        ("builtin_canal_intentar", ExtraManejador::Ninguno)
    } else if mismo_texto(f, "proceso_crear") {
        ("builtin_proceso_crear", ExtraManejador::Ninguno)
    } else if mismo_texto(f, "proceso_esperar") {
        ("builtin_proceso_esperar", ExtraManejador::Ninguno)
    } else if mismo_texto(f, "proceso_leer_salida_completa") {
        ("builtin_proceso_leer_salida", ExtraManejador::Ninguno)
    } else if mismo_texto(f, "proceso_cerrar") {
        ("builtin_proceso_cerrar", ExtraManejador::Ninguno)
    } else if mismo_texto(f, "proceso_crear_con_pipes") {
        ("builtin_proceso_crear_con_pipes", ExtraManejador::Ninguno)
    } else if mismo_texto(f, "proceso_escribir") {
        ("builtin_proceso_escribir", ExtraManejador::Ninguno)
    } else if mismo_texto(f, "proceso_leer_salida_chunk") {
        ("builtin_proceso_leer_salida_chunk", ExtraManejador::Ninguno)
    } else if mismo_texto(f, "proceso_leer_error_chunk") {
        ("builtin_proceso_leer_error_chunk", ExtraManejador::Ninguno)
    } else if mismo_texto(f, "proceso_cerrar_entrada") {
        ("builtin_proceso_cerrar_entrada", ExtraManejador::Ninguno)
    } else if mismo_texto(f, "proceso_listo_para_leer") {
        ("builtin_proceso_listo_para_leer", ExtraManejador::Ninguno)
    } else if mismo_texto(f, "proceso_cerrar_bidireccional") {
        ("builtin_proceso_cerrar_bidireccional", ExtraManejador::Ninguno)
    } else if mismo_texto(f, "tcp_conectar") {
        ("builtin_tcp_conectar", ExtraManejador::Ninguno)
    } else if mismo_texto(f, "dns_resolver") {
        ("builtin_dns_resolver", ExtraManejador::Ninguno)
    } else if mismo_texto(f, "tcp_establecer_timeout") {
        ("builtin_tcp_establecer_timeout", ExtraManejador::Ninguno)
    } else if mismo_texto(f, "tcp_datos_disponibles") {
        ("builtin_tcp_datos_disponibles", ExtraManejador::Ninguno)
    } else if mismo_texto(f, "terminal_modo_raw") {
        ("builtin_terminal_modo_raw", ExtraManejador::Ninguno)
    } else if mismo_texto(f, "terminal_leer_tecla") {
        ("builtin_terminal_leer_tecla", ExtraManejador::Ninguno)
    } else if mismo_texto(f, "entrada_leer") {
        ("builtin_entrada_leer", ExtraManejador::Ninguno)
    } else if mismo_texto(f, "argumentos") {
        ("builtin_argumentos", ExtraManejador::Ninguno)
    } else if mismo_texto(f, "fecha_unix") {
        ("builtin_fecha_unix", ExtraManejador::Ninguno)
    } else if mismo_texto(f, "fecha_ms") {
        ("builtin_fecha_ms", ExtraManejador::Ninguno)
    } else if mismo_texto(f, "dht_nuevo") {
        ("builtin_dht_nuevo", ExtraManejador::Ninguno)
    } else if mismo_texto(f, "dht_publicar") {
        ("builtin_dht_publicar", ExtraManejador::Ninguno)
    } else if mismo_texto(f, "dht_consultar") {
        ("builtin_dht_consultar", ExtraManejador::Ninguno)
    } else if mismo_texto(f, "dht_bootstrap") {
        ("builtin_dht_bootstrap", ExtraManejador::Ninguno)
    } else if mismo_texto(f, "dht_cerrar") {
        ("builtin_dht_cerrar", ExtraManejador::Ninguno)
    } else if mismo_texto(f, "diccionario_nuevo") {
        ("builtin_diccionario_nuevo", ExtraManejador::Ninguno)
    } else if mismo_texto(f, "diccionario_insertar") {
        ("builtin_diccionario_insertar", ExtraManejador::Ninguno)
    } else if mismo_texto(f, "diccionario_obtener") {
        ("builtin_diccionario_obtener", ExtraManejador::Ninguno)
    } else if mismo_texto(f, "diccionario_existe") {
        ("builtin_diccionario_existe", ExtraManejador::Ninguno)
    } else if mismo_texto(f, "diccionario_eliminar") {
        ("builtin_diccionario_eliminar", ExtraManejador::Ninguno)
    } else if mismo_texto(f, "diccionario_longitud") {
        ("builtin_diccionario_longitud", ExtraManejador::Ninguno)
    } else if mismo_texto(f, "diccionario_liberar") {
        ("builtin_diccionario_liberar", ExtraManejador::Ninguno)
    } else if mismo_texto(f, "conjunto_nuevo") {
        ("builtin_conjunto_nuevo", ExtraManejador::Ninguno)
    } else if mismo_texto(f, "conjunto_insertar") {
        ("builtin_conjunto_insertar", ExtraManejador::Ninguno)
    } else if mismo_texto(f, "conjunto_contiene") {
        ("builtin_conjunto_contiene", ExtraManejador::Ninguno)
    } else if mismo_texto(f, "conjunto_eliminar") {
        ("builtin_conjunto_eliminar", ExtraManejador::Ninguno)
    } else if mismo_texto(f, "conjunto_longitud") {
        ("builtin_conjunto_longitud", ExtraManejador::Ninguno)
    } else if mismo_texto(f, "conjunto_liberar") {
        ("builtin_conjunto_liberar", ExtraManejador::Ninguno)
    } else {
        return Err(error_no_implementada(f));
    };
    Ok(Manejador { metodo: String::from_str(metodo), extra })
}

/// Whether a struct named `n` is registered.
pub open spec fn struct_registrado(structs: Seq<StructLayout>, n: Seq<char>) -> bool {
    exists|i: int| 0 <= i < structs.len() && structs[i].nombre@ == n
}

/// Whether an enum named `n` is registered.
pub open spec fn enum_registrado(enums: Seq<EnumLayout>, n: Seq<char>) -> bool {
    exists|i: int| 0 <= i < enums.len() && enums[i].nombre@ == n
}

/// The error that code generation reports for the expression `e` itself,
/// before it compiles any part of it, given the variables in scope and the
/// registered structs and enums: a character literal, an unknown variable
/// (read or moved), a struct or enum that is not registered, `todos` outside
/// an initialization, or a range outside a `para` loop.
pub open spec fn error_de_expresion(
    e: SpecExpresion,
    variables: Seq<Seq<char>>,
    structs: Seq<StructLayout>,
    enums: Seq<EnumLayout>,
) -> Option<(CategoriaError, u32, Seq<char>)> {
    match e {
        SpecExpresion::Literal(SpecLiteral::Caracter(_, _)) => Some(
            (CategoriaError::Interno, 5, "Literal no soportado"@),
        ),
        SpecExpresion::Identificador(n, _) => if variables.contains(n) {
            None
        } else {
            Some((CategoriaError::Interno, 6, "Variable '"@ + n + "' no encontrada"@))
        },
        SpecExpresion::InicializacionStruct(n, _, _) => if struct_registrado(structs, n) {
            None
        } else {
            Some((CategoriaError::Interno, 30, "Struct '"@ + n + "' no registrado en codegen"@))
        },
        SpecExpresion::ArrayRelleno(_, _, _) => Some(
            (
                CategoriaError::Interno,
                22,
                "'todos' solo puede usarse en inicialización de variable con tipo explícito"@,
            ),
        ),
        SpecExpresion::EsVariante(_, en, _, _, _) => if enum_registrado(enums, en) {
            None
        } else {
            Some((CategoriaError::Interno, 50, "Enum '"@ + en + "' no registrado en codegen"@))
        },
        SpecExpresion::Mover(n, _, _) => if variables.contains(n) {
            None
        } else {
            Some((CategoriaError::Interno, 52, "Variable '"@ + n + "' no encontrada en 'mover'"@))
        },
        SpecExpresion::Rango(_, _, _, _) => Some(
            (CategoriaError::Tipo, 41, "Los rangos (..) solo pueden usarse dentro de un bucle 'para'"@),
        ),
        _ => None,
    }
}

/// Whether `v` holds the text `n`.
fn hay_variable(v: &Vec<String>, n: &str) -> (r: bool)
    ensures
        r == v@.map_values(|t: String| t@).contains(n@),
{
    let ghost vv = v@.map_values(|t: String| t@);
    let mut i: usize = 0;
    while i < v.len()
        invariant
            i <= v.len(),
            vv == v@.map_values(|t: String| t@),
            forall|j: int| 0 <= j < i ==> vv[j] != n@,
        decreases v.len() - i,
    {
        if mismo_texto(v[i].as_str(), n) {
            assert(vv[i as int] == n@);
            return true;
        }
        i = i + 1;
    }
    false
}

/// An error with a fixed message.
fn error_fijo(categoria: CategoriaError, codigo: u32, mensaje: &str) -> (e: ErrorCompilacion)
    ensures
        e.categoria == categoria,
        e.codigo == codigo,
        e.mensaje@ == mensaje@,
{
    ErrorCompilacion { categoria, codigo, mensaje: String::from_str(mensaje) }
}

/// An error with its parts.
fn error(categoria: CategoriaError, codigo: u32, partes: (&str, &str, &str)) -> (e: ErrorCompilacion)
    ensures
        e.categoria == categoria,
        e.codigo == codigo,
        e.mensaje@ == partes.0@ + partes.1@ + partes.2@,
{
    let mut m = String::from_str(partes.0);
    m.append(partes.1);
    m.append(partes.2);
    ErrorCompilacion { categoria, codigo, mensaje: m }
}

impl Codegen {
    /// The error reported for `expr` itself, before any part of it is
    /// compiled, given the names of the variables in scope; `None` when
    /// compilation goes on.
    #[verifier::loop_isolation(false)]
    pub fn error_inmediato(&self, expr: &Expresion, variables: &Vec<String>) -> (r: Option<ErrorCompilacion>)
        ensures
            match r {
                Some(e) => error_de_expresion(
                    expr@,
                    variables@.map_values(|t: String| t@),
                    self.structs@,
                    self.enums@,
                ) == Some((e.categoria, e.codigo, e.mensaje@)),
                None => error_de_expresion(
                    expr@,
                    variables@.map_values(|t: String| t@),
                    self.structs@,
                    self.enums@,
                ) is None,
            },
    {
        match expr {
            Expresion::Literal(Literal::Caracter(_, _)) => Some(
                error_fijo(CategoriaError::Interno, 5, "Literal no soportado"),
            ),
            Expresion::Identificador(n, _) => if hay_variable(variables, n.as_str()) {
                None
            } else {
                Some(error(CategoriaError::Interno, 6, ("Variable '", n.as_str(), "' no encontrada")))
            },
            Expresion::InicializacionStruct(n, _, _) => {
                let mut i: usize = 0;
                while i < self.structs.len()
                    invariant
                        i <= self.structs.len(),
                        forall|j: int| 0 <= j < i ==> self.structs@[j].nombre@ != n@,
                    decreases self.structs.len() - i,
                {
                    if mismo_texto(self.structs[i].nombre.as_str(), n.as_str()) {
                        return None;
                    }
                    i = i + 1;
                }
                Some(error(CategoriaError::Interno, 30, ("Struct '", n.as_str(), "' no registrado en codegen")))
            },
            Expresion::ArrayRelleno(_, _, _) => Some(
                error_fijo(
                    CategoriaError::Interno,
                    22,
                    "'todos' solo puede usarse en inicialización de variable con tipo explícito",
                ),
            ),
            Expresion::EsVariante(_, en, _, _, _) => {
                let mut i: usize = 0;
                while i < self.enums.len()
                    invariant
                        i <= self.enums.len(),
                        forall|j: int| 0 <= j < i ==> self.enums@[j].nombre@ != en@,
                    decreases self.enums.len() - i,
                {
                    if mismo_texto(self.enums[i].nombre.as_str(), en.as_str()) {
                        return None;
                    }
                    i = i + 1;
                }
                Some(error(CategoriaError::Interno, 50, ("Enum '", en.as_str(), "' no registrado en codegen")))
            },
            Expresion::Mover(n, _, _) => if hay_variable(variables, n.as_str()) {
                None
            } else {
                Some(error(CategoriaError::Interno, 52, ("Variable '", n.as_str(), "' no encontrada en 'mover'")))
            },
            Expresion::Rango(_, _, _, _) => Some(
                error_fijo(CategoriaError::Tipo, 41, "Los rangos (..) solo pueden usarse dentro de un bucle 'para'"),
            ),
            _ => None,
        }
    }
}

/// Only the printing built-ins take a newline flag, and it says whether they
/// end the line: `imprimir_linea` and `decir` do, `imprimir` does not; all
/// three are emitted by `builtin_imprimir`.
pub proof fn ley_salto_de_linea(f: Seq<char>)
    ensures
        manejador_de(f) matches Some((_, SpecExtra::ConNewline(b))) ==> (f == "imprimir"@ || f == "imprimir_linea"@
            || f == "decir"@) && (b <==> (f == "imprimir_linea"@ || f == "decir"@)),
        f == "imprimir_linea"@ || f == "decir"@ ==> manejador_de(f) == Some(
            ("builtin_imprimir"@, SpecExtra::ConNewline(true)),
        ),
        f == "imprimir"@ ==> manejador_de(f) == Some(("builtin_imprimir"@, SpecExtra::ConNewline(false))),
{
    reveal_strlit("imprimir");
    reveal_strlit("imprimir_linea");
    reveal_strlit("decir");
    assert("imprimir_linea"@ != "imprimir"@) by {
        assert("imprimir_linea"@.len() != "imprimir"@.len());
    }
    assert("decir"@ != "imprimir"@) by {
        assert("decir"@.len() != "imprimir"@.len());
    }
    assert("decir"@ != "imprimir_linea"@) by {
        assert("decir"@.len() != "imprimir_linea"@.len());
    }
}

} // verus!
