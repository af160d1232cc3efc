use falcato::ast::{
    Articulo, Bloque, Expresion, FuncionDecl, Literal, Llamada, OperadorBinario, Parametro, ParametroGenerico,
    Span, Tipo, Visibilidad,
};
use falcato::codegen::reescritura::{
    builtin_para_metodo, llamada_de_acceso_array, llamada_de_binaria_exec, llamada_de_metodo, operacion_bits,
    parametros_de_closure, OperacionBits,
};
use falcato::codegen::{CategoriaError, Codegen, ErrorCompilacion};

fn sp(l: usize) -> Span {
    Span { linea: l, columna: 3 }
}

fn id(n: &str, l: usize) -> Expresion {
    Expresion::Identificador(n.to_string(), sp(l))
}

fn ent(n: i64) -> Expresion {
    Expresion::Literal(Literal::Entero(n, sp(9)))
}

fn bx(t: Tipo) -> Box<Tipo> {
    Box::new(t)
}

fn llamada(f: &str, args: Vec<Expresion>, s: Span) -> Llamada {
    Llamada { funcion: f.to_string(), tipo_args: vec![], argumentos: args, span: s }
}

fn cg() -> Codegen {
    Codegen { enums: vec![], structs: vec![] }
}

#[test]
fn metodos_de_texto() {
    let r = llamada_de_metodo(&Tipo::Texto, &id("s", 4), "agregar", &vec![ent(1)]);
    assert_eq!(r, Some(llamada("texto_agregar", vec![id("s", 4), ent(1)], sp(4))));
    assert_eq!(builtin_para_metodo(&Tipo::Texto, "tam"), Some("texto_longitud".to_string()));
    assert_eq!(builtin_para_metodo(&Tipo::Texto, "obtener"), Some("texto_obtener_byte".to_string()));
    assert_eq!(builtin_para_metodo(&Tipo::Texto, "comparar"), Some("texto_comparar".to_string()));
    assert_eq!(builtin_para_metodo(&Tipo::Texto, "contiene"), None);
}

#[test]
fn metodos_de_colecciones() {
    let v = Tipo::Vector(bx(Tipo::Entero32));
    assert_eq!(builtin_para_metodo(&v, "tam"), Some("vector_longitud".to_string()));
    assert_eq!(builtin_para_metodo(&v, "subtexto"), None);
    let d = Tipo::Diccionario(bx(Tipo::Texto), bx(Tipo::Entero32));
    assert_eq!(builtin_para_metodo(&d, "existe"), Some("diccionario_existe".to_string()));
    assert_eq!(builtin_para_metodo(&d, "tam"), Some("diccionario_longitud".to_string()));
    let c = Tipo::Conjunto(bx(Tipo::Entero32));
    assert_eq!(builtin_para_metodo(&c, "contiene"), Some("conjunto_contiene".to_string()));
    assert_eq!(builtin_para_metodo(&c, "obtener"), None);
    // A method of an integer is a bit method: no built-in.
    assert_eq!(llamada_de_metodo(&Tipo::Entero32, &id("x", 1), "unos", &vec![]), None);
    let r = llamada_de_metodo(&d, &id("m", 2), "insertar", &vec![id("k", 5), ent(3)]);
    assert_eq!(r, Some(llamada("diccionario_insertar", vec![id("m", 2), id("k", 5), ent(3)], sp(2))));
}

#[test]
fn indexacion_de_textos_y_vectores() {
    let rango = Expresion::Rango(Box::new(ent(1)), Box::new(ent(4)), false, sp(8));
    assert_eq!(
        llamada_de_acceso_array(&Tipo::Texto, &id("t", 1), &rango, sp(7)),
        Some(llamada("texto_subtexto", vec![id("t", 1), ent(1), ent(4)], sp(7)))
    );
    assert_eq!(
        llamada_de_acceso_array(&Tipo::Texto, &id("t", 1), &ent(2), sp(7)),
        Some(llamada("texto_obtener_byte", vec![id("t", 1), ent(2)], sp(7)))
    );
    assert_eq!(
        llamada_de_acceso_array(&Tipo::Vector(bx(Tipo::Texto)), &id("v", 1), &id("i", 2), sp(6)),
        Some(llamada("vector_obtener", vec![id("v", 1), id("i", 2)], sp(6)))
    );
    assert_eq!(llamada_de_acceso_array(&Tipo::Array(bx(Tipo::Entero8), 4), &id("a", 1), &ent(0), sp(6)), None);
}

#[test]
fn suma_de_textos_concatena() {
    assert_eq!(
        llamada_de_binaria_exec(&Tipo::Texto, &id("a", 1), OperadorBinario::Suma, &id("b", 2), sp(3)),
        Some(llamada("texto_concatenar", vec![id("a", 1), id("b", 2)], sp(3)))
    );
    assert_eq!(llamada_de_binaria_exec(&Tipo::Entero32, &id("a", 1), OperadorBinario::Suma, &id("b", 2), sp(3)), None);
    assert_eq!(llamada_de_binaria_exec(&Tipo::Texto, &id("a", 1), OperadorBinario::Igual, &id("b", 2), sp(3)), None);
}

#[test]
fn parametros_y_capturas_de_closures() {
    let ps = parametros_de_closure(&vec![("x".to_string(), None), ("y".to_string(), Some(Tipo::Flotante64))]);
    assert_eq!(ps, vec![("x".to_string(), Tipo::Entero32), ("y".to_string(), Tipo::Flotante64)]);
    let cuerpo = Expresion::Binaria(
        Box::new(id("x", 1)),
        OperadorBinario::Suma,
        Box::new(Expresion::Binaria(Box::new(id("k", 1)), OperadorBinario::Multiplicacion, Box::new(id("z", 1)), sp(1))),
        sp(1),
    );
    let variables = vec![
        ("z".to_string(), Tipo::Entero64),
        ("x".to_string(), Tipo::Texto),
        ("w".to_string(), Tipo::Entero32),
        ("k".to_string(), Tipo::Booleano),
    ];
    assert_eq!(
        cg().capturas_de_closure(&ps, &variables, &cuerpo),
        vec![("z".to_string(), Tipo::Entero64), ("k".to_string(), Tipo::Booleano)]
    );
}

fn generica(gps: Vec<ParametroGenerico>, params: Vec<Parametro>) -> FuncionDecl {
    FuncionDecl {
        nombre: "primero".into(),
        parametros_genericos: gps,
        parametros: params,
        retorno: None,
        cuerpo: Bloque { sentencias: vec![], span: sp(1) },
        es_insegura: false,
        es_vectorizable: false,
        nivel_verificacion: 0,
        efecto: None,
        visibilidad: Visibilidad::Publica,
        es_futuro: false,
        span: sp(1),
    }
}

fn par(n: &str, t: Tipo) -> Parametro {
    Parametro { articulo: Articulo::La, nombre: n.into(), tipo: t }
}

#[test]
fn instanciacion_de_una_generica() {
    let f = generica(
        vec![
            ParametroGenerico { nombre: "T".into(), tipo: None },
            ParametroGenerico { nombre: "N".into(), tipo: Some(Tipo::Natural64) },
        ],
        vec![par("xs", Tipo::ArrayGenerico(bx(Tipo::Generico("T".into())), "N".into()))],
    );
    let inst = cg().instanciacion_generica(&f, &vec![Tipo::Array(bx(Tipo::Entero64), 3)], "primero").unwrap();
    // The type extracted through an array parameter is that of its elements.
    assert_eq!(inst.sust_tipos, vec![("T".to_string(), Tipo::Entero64)]);
    assert_eq!(inst.sust_consts, vec![("N".to_string(), "3".to_string())]);
    assert_eq!(inst.valores_clave, vec!["Entero64".to_string(), "3".to_string()]);
}

#[test]
fn nombre_repetido_se_queda_con_el_ultimo_valor() {
    let f = generica(
        vec![
            ParametroGenerico { nombre: "T".into(), tipo: None },
            ParametroGenerico { nombre: "T".into(), tipo: None },
        ],
        vec![par("a", Tipo::Generico("T".into()))],
    );
    let inst = cg().instanciacion_generica(&f, &vec![Tipo::Texto], "f").unwrap();
    assert_eq!(inst.sust_tipos, vec![("T".to_string(), Tipo::Texto)]);
    assert_eq!(inst.valores_clave, vec!["Texto".to_string(), "Texto".to_string()]);
}

#[test]
fn errores_de_instanciacion() {
    let f = generica(
        vec![ParametroGenerico { nombre: "N".into(), tipo: Some(Tipo::Natural64) }],
        vec![par("xs", Tipo::ArrayGenerico(bx(Tipo::Entero32), "N".into()))],
    );
    assert_eq!(
        cg().instanciacion_generica(&f, &vec![Tipo::Vector(bx(Tipo::Entero32))], "suma").err(),
        Some(ErrorCompilacion {
            categoria: CategoriaError::Tipo,
            codigo: 60,
            mensaje: "No se pudo inferir el valor del parámetro const 'N' en llamada a 'suma'".into(),
        })
    );
    let g = generica(
        vec![ParametroGenerico { nombre: "T".into(), tipo: None }],
        vec![par("x", Tipo::Entero32)],
    );
    assert_eq!(
        cg().instanciacion_generica(&g, &vec![Tipo::Entero32], "id").err(),
        Some(ErrorCompilacion {
            categoria: CategoriaError::Tipo,
            codigo: 62,
            mensaje: "No se pudo inferir el tipo del parámetro genérico 'T' en llamada a 'id'".into(),
        })
    );
}

#[test]
fn la_especializacion_se_nombra_por_su_clave() {
    let f = generica(
        vec![
            ParametroGenerico { nombre: "T".into(), tipo: None },
            ParametroGenerico { nombre: "N".into(), tipo: Some(Tipo::Natural64) },
        ],
        vec![par("xs", Tipo::ArrayGenerico(bx(Tipo::Generico("T".into())), "N".into()))],
    );
    let mut c = cg();
    let inst = c.instanciacion_generica(&f, &vec![Tipo::Array(bx(Tipo::Entero64), 3)], "primero").unwrap();
    let especializada = c.especializar_funcion(&f, &inst.sust_consts, &inst.sust_tipos);
    assert_eq!(especializada.nombre, format!("primero_{}", inst.valores_clave.join("_")));
    assert_eq!(especializada.nombre, "primero_Entero64_3");
    assert_eq!(especializada.parametros[0].tipo, Tipo::Array(bx(Tipo::Entero64), 3));
}

#[test]
fn metodos_de_bits() {
    assert_eq!(operacion_bits("poner_bit"), OperacionBits::PonerBit);
    assert_eq!(operacion_bits("quitar_bit"), OperacionBits::QuitarBit);
    assert_eq!(operacion_bits("alternar_bit"), OperacionBits::AlternarBit);
    assert_eq!(operacion_bits("extraer_bits"), OperacionBits::ExtraerBits);
    assert_eq!(operacion_bits("ceros_izquierda"), OperacionBits::CerosIzquierda);
    assert_eq!(operacion_bits("unos"), OperacionBits::Unos);
    assert_eq!(operacion_bits("tam"), OperacionBits::Ninguna);
}
