use falcato::ast::{
    Articulo, Bloque, Expresion, FuncionDecl, Literal, Llamada, Parametro, Sentencia, Span, Tipo, Visibilidad,
};
use falcato::codegen::funciones::{ms_de_suspension, plan_funcion, variable_liberada, DestinoLlamada, PlanFuncion};
use falcato::codegen::{CategoriaError, Codegen, ErrorCompilacion};

fn sp() -> Span {
    Span { linea: 3, columna: 1 }
}

fn par(a: Articulo, n: &str) -> Parametro {
    Parametro { articulo: a, nombre: n.into(), tipo: Tipo::Texto }
}

fn funcion(nombre: &str, params: Vec<Parametro>, cuerpo: Vec<Sentencia>) -> FuncionDecl {
    FuncionDecl {
        nombre: nombre.into(),
        parametros_genericos: vec![],
        parametros: params,
        retorno: Some(Tipo::Nombre("Punto".into())),
        cuerpo: Bloque { sentencias: cuerpo, span: sp() },
        es_insegura: false,
        es_vectorizable: false,
        nivel_verificacion: 0,
        efecto: None,
        visibilidad: Visibilidad::Publica,
        es_futuro: false,
        span: sp(),
    }
}

fn id(n: &str) -> Expresion {
    Expresion::Identificador(n.into(), sp())
}

fn llamada(f: &str, args: Vec<Expresion>) -> Llamada {
    Llamada { funcion: f.into(), tipo_args: vec![], argumentos: args, span: sp() }
}

#[test]
fn funcion_externa_sin_cuerpo_solo_se_declara() {
    let mut f = funcion("puts", vec![], vec![]);
    f.es_insegura = true;
    assert_eq!(plan_funcion(&f, false, 0), PlanFuncion::SoloDeclarada);
    // With a body an unsafe function is compiled.
    f.cuerpo.sentencias.push(Sentencia::Retornar(None, sp()));
    assert!(matches!(plan_funcion(&f, false, 0), PlanFuncion::Normal { .. }));
}

#[test]
fn funcion_futura() {
    let mut f = funcion("leer", vec![], vec![Sentencia::Retornar(None, sp())]);
    f.es_futuro = true;
    assert_eq!(plan_funcion(&f, true, 2), PlanFuncion::Futuro);
}

#[test]
fn plan_de_una_funcion_normal() {
    let f = funcion(
        "mover",
        vec![par(Articulo::El, "a"), par(Articulo::La, "b"), par(Articulo::Los, "c"), par(Articulo::Un, "d")],
        vec![],
    );
    assert_eq!(
        plan_funcion(&f, true, 3),
        PlanFuncion::Normal {
            sret: true,
            instalar_manejador: false,
            iniciar_memoria: false,
            propios: vec!["a".to_string(), "c".to_string()],
        }
    );
    let mut sin_retorno = funcion("principal", vec![], vec![]);
    sin_retorno.retorno = None;
    assert_eq!(
        plan_funcion(&sin_retorno, true, 1),
        PlanFuncion::Normal { sret: false, instalar_manejador: true, iniciar_memoria: true, propios: vec![] }
    );
    assert_eq!(
        plan_funcion(&sin_retorno, true, 0),
        PlanFuncion::Normal { sret: false, instalar_manejador: true, iniciar_memoria: false, propios: vec![] }
    );
}

#[test]
fn liberacion_manual() {
    assert_eq!(variable_liberada(&llamada("vector_liberar", vec![id("v")])), Some("v".to_string()));
    assert_eq!(variable_liberada(&llamada("_liberar", vec![id("v")])), Some("v".to_string()));
    assert_eq!(variable_liberada(&llamada("liberar", vec![id("v")])), None);
    assert_eq!(variable_liberada(&llamada("texto_liberar", vec![])), None);
    let lit = Expresion::Literal(Literal::Entero(1, sp()));
    assert_eq!(variable_liberada(&llamada("texto_liberar", vec![lit])), None);
}

#[test]
fn destinos_de_llamadas() {
    let c = Codegen { enums: vec![], structs: vec![] };
    assert_eq!(c.destino_llamada(&llamada("imprimir", vec![]), true, true, true, true), DestinoLlamada::Builtin);
    assert_eq!(c.destino_llamada(&llamada("maximo", vec![]), true, true, false, false), DestinoLlamada::Generica);
    assert_eq!(c.destino_llamada(&llamada("area", vec![]), false, true, true, true), DestinoLlamada::Directa(true));
    assert_eq!(c.destino_llamada(&llamada("f", vec![]), false, false, false, true), DestinoLlamada::Indirecta);
    assert_eq!(
        c.destino_llamada(&llamada("nada", vec![]), false, false, false, false),
        DestinoLlamada::Desconocida(ErrorCompilacion { categoria: CategoriaError::FFI, codigo: 1, mensaje: "Función 'nada' no encontrada".into() })
    );
}

#[test]
fn milisegundos_de_una_suspension() {
    let ms = Expresion::Literal(Literal::Entero(250, sp()));
    assert_eq!(ms_de_suspension(&Expresion::Llamada(llamada("dormir", vec![ms]))), Expresion::Literal(Literal::Entero(250, sp())));
    let sin_args = Expresion::Llamada(llamada("dormir", vec![]));
    assert_eq!(ms_de_suspension(&sin_args), Expresion::Llamada(llamada("dormir", vec![])));
    assert_eq!(ms_de_suspension(&id("espera")), id("espera"));
}
