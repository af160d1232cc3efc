use falcato::ast::{Expresion, Llamada, OperadorBinario, OperadorUnario, Span, Tipo};
use falcato::codegen::{Codegen, EnumLayout, StructLayout};

fn sp() -> Span {
    Span { linea: 2, columna: 4 }
}

fn id(n: &str) -> Expresion {
    Expresion::Identificador(n.to_string(), sp())
}

fn llamada(f: &str, args: Vec<Expresion>) -> Llamada {
    Llamada { funcion: f.to_string(), tipo_args: vec![], argumentos: args, span: sp() }
}

fn cg() -> Codegen {
    Codegen {
        enums: vec![
            EnumLayout { nombre: "Color".into(), variantes: vec![("Rojo".into(), 0), ("Verde".into(), 1)], tamano: 4, datos_offset: 4 },
            EnumLayout { nombre: "Color".into(), variantes: vec![("Azul".into(), 9)], tamano: 8, datos_offset: 4 },
        ],
        structs: vec![StructLayout {
            nombre: "Punto".into(),
            tipos: vec![("x".into(), Tipo::Flotante64), ("nombre".into(), Tipo::Texto)],
        }],
    }
}

#[test]
fn indices_de_variantes() {
    let c = cg();
    assert_eq!(c.indice_variante_enum("Color", "Verde"), Some(1));
    assert_eq!(c.indice_variante_enum("Color", "Rojo"), Some(0));
    // the first registration of a name is the one looked up
    assert_eq!(c.indice_variante_enum("Color", "Azul"), None);
    assert_eq!(c.indice_variante_enum("Forma", "Rojo"), None);
}

#[test]
fn tipos_de_campos() {
    let c = cg();
    assert_eq!(c.buscar_tipo_campo("Punto", "x"), Tipo::Flotante64);
    assert_eq!(c.buscar_tipo_campo("Punto", "nombre"), Tipo::Texto);
    assert_eq!(c.buscar_tipo_campo("Punto", "z"), Tipo::Entero32);
    assert_eq!(c.buscar_tipo_campo("Recta", "x"), Tipo::Entero32);
}

#[test]
fn uso_de_variables() {
    let c = cg();
    let e = Expresion::Binaria(
        Box::new(Expresion::Unaria(OperadorUnario::Negacion, Box::new(id("a")), sp())),
        OperadorBinario::Suma,
        Box::new(Expresion::Llamada(llamada("f", vec![id("b"), Expresion::AccesoCampo(Box::new(id("c")), "x".into(), sp())]))),
        sp(),
    );
    assert!(c.expresion_usa_variable(&e, "a"));
    assert!(c.expresion_usa_variable(&e, "b"));
    assert!(c.expresion_usa_variable(&e, "c"));
    assert!(!c.expresion_usa_variable(&e, "x"));
    assert!(!c.expresion_usa_variable(&e, "f"));
    let rango = Expresion::Rango(Box::new(id("i")), Box::new(id("n")), true, sp());
    assert!(c.expresion_usa_variable(&rango, "n"));
    // a closure parameter shadows the variable
    let clausura = Expresion::Closure(vec![("a".into(), None)], Box::new(id("a")), sp());
    assert!(!c.expresion_usa_variable(&clausura, "a"));
    let clausura2 = Expresion::Closure(vec![("y".into(), Some(Tipo::Entero32))], Box::new(id("a")), sp());
    assert!(c.expresion_usa_variable(&clausura2, "a"));
    // forms that are not looked into
    let arr = Expresion::LiteralArray(vec![id("a")], sp());
    assert!(!c.expresion_usa_variable(&arr, "a"));
}

#[test]
fn llamadas_builtin() {
    let c = cg();
    for f in ["imprimir", "tamaño_de", "texto_a_booleano", "seno_2pi", "vector_tam", "dht_cerrar", "como_flotante64", "argumentos"] {
        assert!(c.es_llamada_builtin(&llamada(f, vec![])), "{}", f);
    }
    for f in ["principal", "imprimirr", "", "texto", "seno_2PI"] {
        assert!(!c.es_llamada_builtin(&llamada(f, vec![])), "{}", f);
    }
}

#[test]
fn paso_de_buckets() {
    let c = cg();
    assert_eq!(c.diccionario_bucket_stride(8, 8), 24);
    assert_eq!(c.diccionario_bucket_stride(4, 1), 16);
    assert_eq!(c.diccionario_bucket_stride(0, 0), 8);
    assert_eq!(c.diccionario_bucket_stride(1, 0), 16);
}
