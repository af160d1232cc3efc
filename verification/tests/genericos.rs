use falcato::ast::{
    Articulo, Bloque, DeclaracionVariable, Expresion, FuncionDecl, Literal, Llamada, OperadorBinario, Parametro,
    ParametroGenerico, Sentencia, Span, Tipo, Visibilidad,
};
use falcato::codegen::generics::tipos_iguales;
use falcato::codegen::Codegen;

fn cg() -> Codegen {
    Codegen { enums: vec![], structs: vec![] }
}

fn sp() -> Span {
    Span { linea: 1, columna: 1 }
}

fn g(n: &str) -> Tipo {
    Tipo::Generico(n.to_string())
}

fn bx(t: Tipo) -> Box<Tipo> {
    Box::new(t)
}

fn id(n: &str) -> Expresion {
    Expresion::Identificador(n.to_string(), sp())
}

#[test]
fn contiene_generico_por_las_formas_que_recorre() {
    let c = cg();
    assert!(c.tipo_contiene_generico(&g("T"), "T"));
    assert!(!c.tipo_contiene_generico(&g("U"), "T"));
    assert!(c.tipo_contiene_generico(&Tipo::ArrayGenerico(bx(Tipo::Entero32), "N".into()), "N"));
    assert!(c.tipo_contiene_generico(&Tipo::ArrayGenerico(bx(g("T")), "N".into()), "T"));
    assert!(c.tipo_contiene_generico(&Tipo::Vector(bx(Tipo::Puntero(bx(g("T"))))), "T"));
    assert!(c.tipo_contiene_generico(
        &Tipo::NombreGenerico("Par".into(), vec![Tipo::Entero8, Tipo::Referencia(bx(g("T")))]),
        "T"
    ));
    // every type constructor is looked into
    assert!(c.tipo_contiene_generico(&Tipo::ReferenciaMut(bx(g("T"))), "T"));
    assert!(c.tipo_contiene_generico(&Tipo::ReferenciaMutConLifetime("a".into(), bx(g("T"))), "T"));
    assert!(c.tipo_contiene_generico(&Tipo::ReferenciaSelf(bx(g("T"))), "T"));
    assert!(c.tipo_contiene_generico(&Tipo::Diccionario(bx(Tipo::Texto), bx(g("T"))), "T"));
    assert!(c.tipo_contiene_generico(&Tipo::Resultado(bx(g("T")), bx(Tipo::Texto)), "T"));
    assert!(c.tipo_contiene_generico(&Tipo::Conjunto(bx(g("T"))), "T"));
    assert!(!c.tipo_contiene_generico(&Tipo::Diccionario(bx(Tipo::Texto), bx(g("U"))), "T"));
    assert!(!c.tipo_contiene_generico(&Tipo::NombreGenerico("Par".into(), vec![]), "T"));
}

#[test]
fn valor_generico_es_la_longitud_del_array() {
    let c = cg();
    assert_eq!(c.extraer_valor_generico(&Tipo::Array(bx(Tipo::Entero32), 7), "N"), Some(7));
    assert_eq!(c.extraer_valor_generico(&Tipo::Vector(bx(Tipo::Entero32)), "N"), None);
}

#[test]
fn sustituir_tipo_reemplaza_genericos_y_longitudes() {
    let c = cg();
    let consts = vec![("N".to_string(), "5".to_string()), ("M".to_string(), "x".to_string())];
    let tipos = vec![("T".to_string(), Tipo::Entero64)];
    let mut t = Tipo::NombreGenerico(
        "Caja".into(),
        vec![g("T"), Tipo::ArrayGenerico(bx(g("T")), "N".into()), Tipo::ArrayGenerico(bx(g("T")), "M".into())],
    );
    c.sustituir_tipo(&mut t, &consts, &tipos);
    assert_eq!(
        t,
        Tipo::NombreGenerico(
            "Caja".into(),
            vec![
                Tipo::Entero64,
                // a resolved generic array gets its length and its element type
                Tipo::Array(bx(Tipo::Entero64), 5),
                // a length that does not read as a number leaves the array generic
                Tipo::ArrayGenerico(bx(Tipo::Entero64), "M".into()),
            ]
        )
    );
    let mut r = Tipo::ReferenciaMutConLifetime("a".into(), bx(g("T")));
    c.sustituir_tipo(&mut r, &consts, &tipos);
    assert_eq!(r, Tipo::ReferenciaMutConLifetime("a".into(), bx(Tipo::Entero64)));
    // dictionaries, sets and results are rewritten too
    let mut d = Tipo::Diccionario(bx(g("T")), bx(Tipo::Conjunto(bx(g("T")))));
    c.sustituir_tipo(&mut d, &consts, &tipos);
    assert_eq!(d, Tipo::Diccionario(bx(Tipo::Entero64), bx(Tipo::Conjunto(bx(Tipo::Entero64)))));
    let mut res = Tipo::Resultado(bx(g("T")), bx(Tipo::Texto));
    c.sustituir_tipo(&mut res, &consts, &tipos);
    assert_eq!(res, Tipo::Resultado(bx(Tipo::Entero64), bx(Tipo::Texto)));
    // a second substitution changes nothing more
    let antes = format!("{:?}", t);
    c.sustituir_tipo(&mut t, &consts, &tipos);
    assert_eq!(format!("{:?}", t), antes);
    // the first entry of a name wins
    let dobles = vec![("T".to_string(), Tipo::Booleano), ("T".to_string(), Tipo::Texto)];
    let mut x = g("T");
    c.sustituir_tipo(&mut x, &vec![], &dobles);
    assert_eq!(x, Tipo::Booleano);
}

#[test]
fn sustituir_en_expresion_lee_enteros() {
    let c = cg();
    let consts = vec![
        ("N".to_string(), "42".to_string()),
        ("M".to_string(), "-7".to_string()),
        ("P".to_string(), "+3".to_string()),
        ("Q".to_string(), "abc".to_string()),
        ("R".to_string(), "9223372036854775808".to_string()),
    ];
    let mut e = Expresion::Llamada(Llamada {
        funcion: "f".into(),
        tipo_args: vec![],
        argumentos: vec![
            id("N"),
            Expresion::Binaria(Box::new(id("M")), OperadorBinario::Suma, Box::new(id("P")), sp()),
            id("Q"),
            id("R"),
            id("x"),
            Expresion::Rango(Box::new(id("N")), Box::new(id("N")), false, sp()),
        ],
        span: sp(),
    });
    c.sustituir_en_expresion(&mut e, &consts);
    let lit = |n: i64| Expresion::Literal(Literal::Entero(n, sp()));
    assert_eq!(
        e,
        Expresion::Llamada(Llamada {
            funcion: "f".into(),
            tipo_args: vec![],
            argumentos: vec![
                lit(42),
                Expresion::Binaria(Box::new(lit(-7)), OperadorBinario::Suma, Box::new(lit(3)), sp()),
                id("Q"),
                id("R"),
                id("x"),
                // ranges are not visited
                Expresion::Rango(Box::new(id("N")), Box::new(id("N")), false, sp()),
            ],
            span: sp(),
        })
    );
}

#[test]
fn sustituir_en_sentencia_recorre_bloques() {
    let c = cg();
    let consts = vec![("N".to_string(), "3".to_string())];
    let tipos = vec![("T".to_string(), Tipo::Texto)];
    let decl = |tipo: Tipo, valor: Expresion| {
        Sentencia::DeclaracionVariable(DeclaracionVariable {
            articulo: Articulo::El,
            nombre: "x".into(),
            tipo: Some(tipo),
            valor,
            span: sp(),
        })
    };
    let mut s = Sentencia::Region {
        nombre: "r".into(),
        cuerpo: vec![
            decl(g("T"), id("N")),
            Sentencia::Retornar(Some(id("N")), sp()),
            Sentencia::Romper(sp()),
        ],
        span: sp(),
    };
    c.sustituir_en_sentencia(&mut s, &consts, &tipos);
    assert_eq!(
        s,
        Sentencia::Region {
            nombre: "r".into(),
            cuerpo: vec![
                decl(Tipo::Texto, Expresion::Literal(Literal::Entero(3, sp()))),
                Sentencia::Retornar(Some(Expresion::Literal(Literal::Entero(3, sp()))), sp()),
                Sentencia::Romper(sp()),
            ],
            span: sp(),
        }
    );
}

#[test]
fn nombres_de_instancia() {
    let c = cg();
    assert_eq!(c.nombre_tipo_instancia(&Tipo::Entero32), "Entero32");
    assert_eq!(c.nombre_tipo_instancia(&Tipo::Array(bx(Tipo::Natural8), 16)), "Array_Natural8_16");
    assert_eq!(c.nombre_tipo_instancia(&Tipo::ArrayGenerico(bx(g("T")), "N".into())), "Array_T_N");
    assert_eq!(
        c.nombre_tipo_instancia(&Tipo::Diccionario(bx(Tipo::Texto), bx(Tipo::Vector(bx(Tipo::Booleano))))),
        "Diccionario_Texto_Vector_Booleano"
    );
    assert_eq!(c.nombre_tipo_instancia(&Tipo::ReferenciaConLifetime("a".into(), bx(Tipo::Caracter))), "Ref_Caracter");
    assert_eq!(c.nombre_tipo_instancia(&Tipo::ReferenciaMutSelf(bx(Tipo::Nombre("Punto".into())))), "RefMutSelf_Punto");
    assert_eq!(
        c.nombre_tipo_instancia(&Tipo::NombreGenerico("Par".into(), vec![Tipo::Entero8, Tipo::Flotante64])),
        "Par_Entero8_Flotante64"
    );
    assert_eq!(c.nombre_tipo_instancia(&Tipo::NombreGenerico("Vacia".into(), vec![])), "Vacia_");
    assert_eq!(c.nombre_tipo_instancia(&Tipo::Resultado(bx(Tipo::Vacio), bx(Tipo::Palabra))), "Resultado_Vacio_Palabra");
}

#[test]
fn extraer_tipo_generico_de_argumentos() {
    let c = cg();
    assert_eq!(c.extraer_tipo_generico(&Tipo::Entero32, "T", &g("T")), Some(Tipo::Entero32));
    assert_eq!(c.extraer_tipo_generico(&Tipo::Entero32, "T", &g("U")), None);
    assert_eq!(
        c.extraer_tipo_generico(&Tipo::Vector(bx(Tipo::Texto)), "T", &Tipo::Vector(bx(g("T")))),
        Some(Tipo::Texto)
    );
    assert_eq!(
        c.extraer_tipo_generico(&Tipo::Array(bx(Tipo::Booleano), 4), "T", &Tipo::ArrayGenerico(bx(g("T")), "N".into())),
        Some(Tipo::Booleano)
    );
    assert_eq!(
        c.extraer_tipo_generico(&Tipo::ReferenciaMut(bx(Tipo::Entero8)), "T", &Tipo::ReferenciaMut(bx(g("T")))),
        Some(Tipo::Entero8)
    );
    assert_eq!(
        c.extraer_tipo_generico(
            &Tipo::Diccionario(bx(Tipo::Texto), bx(Tipo::Natural32)),
            "T",
            &Tipo::Diccionario(bx(Tipo::Texto), bx(g("T")))
        ),
        Some(Tipo::Natural32)
    );
    assert_eq!(c.extraer_tipo_generico(&Tipo::Texto, "T", &Tipo::Vector(bx(g("T")))), None);
    assert_eq!(
        c.extraer_tipo_generico(
            &Tipo::NombreGenerico("Par".into(), vec![Tipo::Entero8, Tipo::Caracter]),
            "T",
            &Tipo::NombreGenerico("Par".into(), vec![g("U"), g("T")])
        ),
        Some(Tipo::Caracter)
    );
}

fn parametro(tipo: Tipo) -> Parametro {
    Parametro { articulo: Articulo::La, nombre: "p".into(), tipo }
}

#[test]
fn inferir_tipo_generico_acuerdo_y_conflicto() {
    let c = cg();
    let ps = vec![parametro(g("T")), parametro(Tipo::Entero32), parametro(g("T"))];
    assert_eq!(
        c.inferir_tipo_generico(&ps, &vec![Tipo::Texto, Tipo::Entero32, Tipo::Texto], "T"),
        Some(Tipo::Texto)
    );
    assert_eq!(c.inferir_tipo_generico(&ps, &vec![Tipo::Texto, Tipo::Entero32, Tipo::Booleano], "T"), None);
    // only as many arguments as were passed are looked at
    assert_eq!(c.inferir_tipo_generico(&ps, &vec![Tipo::Natural8], "T"), Some(Tipo::Natural8));
    assert_eq!(c.inferir_tipo_generico(&ps, &vec![], "T"), None);
}

#[test]
fn inferir_const_generico_de_arrays() {
    let c = cg();
    let ps = vec![parametro(Tipo::Entero32), parametro(Tipo::ArrayGenerico(bx(Tipo::Entero32), "N".into()))];
    assert_eq!(c.inferir_const_generico(&ps, &vec![Tipo::Entero32, Tipo::Array(bx(Tipo::Entero32), 9)], "N"), Some(9));
    assert_eq!(c.inferir_const_generico(&ps, &vec![Tipo::Entero32, Tipo::Vector(bx(Tipo::Entero32))], "N"), None);
    assert_eq!(c.inferir_const_generico(&ps, &vec![Tipo::Array(bx(Tipo::Entero32), 2)], "N"), None);
}

#[test]
fn tipos_iguales_es_igualdad_estructural() {
    let a = Tipo::NombreGenerico("Par".into(), vec![Tipo::Entero8, Tipo::Array(bx(g("T")), 3)]);
    let b = Tipo::NombreGenerico("Par".into(), vec![Tipo::Entero8, Tipo::Array(bx(g("T")), 3)]);
    let d = Tipo::NombreGenerico("Par".into(), vec![Tipo::Entero8, Tipo::Array(bx(g("T")), 4)]);
    let e = Tipo::NombreGenerico("Par".into(), vec![Tipo::Entero8]);
    assert!(tipos_iguales(&a, &b));
    assert!(!tipos_iguales(&a, &d));
    assert!(!tipos_iguales(&a, &e));
    assert!(!tipos_iguales(&Tipo::Texto, &Tipo::Palabra));
}

#[test]
fn especializar_funcion_renombra_y_sustituye() {
    let mut c = cg();
    let f = FuncionDecl {
        nombre: "primero".into(),
        parametros_genericos: vec![
            ParametroGenerico { nombre: "T".into(), tipo: None },
            ParametroGenerico { nombre: "N".into(), tipo: Some(Tipo::Natural64) },
        ],
        parametros: vec![Parametro {
            articulo: Articulo::La,
            nombre: "xs".into(),
            tipo: Tipo::ArrayGenerico(bx(g("T")), "N".into()),
        }],
        retorno: Some(g("T")),
        cuerpo: Bloque { sentencias: vec![Sentencia::Retornar(Some(id("N")), sp())], span: sp() },
        es_insegura: false,
        es_vectorizable: true,
        nivel_verificacion: 1,
        efecto: Some("puro".into()),
        visibilidad: Visibilidad::Privada,
        es_futuro: false,
        span: sp(),
    };
    let consts = vec![("N".to_string(), "8".to_string())];
    let tipos = vec![("T".to_string(), Tipo::Entero16)];
    let e = c.especializar_funcion(&f, &consts, &tipos);
    assert_eq!(e.nombre, "primero_Entero16_8");
    assert!(e.parametros_genericos.is_empty());
    assert_eq!(e.parametros[0].tipo, Tipo::Array(bx(Tipo::Entero16), 8));
    assert_eq!(e.retorno, Some(Tipo::Entero16));
    assert_eq!(e.cuerpo.sentencias, vec![Sentencia::Retornar(Some(Expresion::Literal(Literal::Entero(8, sp()))), sp())]);
    assert_eq!(e.efecto, Some("puro".to_string()));
    assert!(e.es_vectorizable);
    // unbound parameters keep their names
    let e2 = c.especializar_funcion(&f, &vec![], &vec![]);
    assert_eq!(e2.nombre, "primero_T_N");
    assert_eq!(e2.parametros, f.parametros);
    assert_eq!(e2.cuerpo, f.cuerpo);
}

#[test]
fn la_extraccion_deshace_la_sustitucion() {
    let c = cg();
    // A parameter type with an array of generic length, a dictionary and another generic.
    let param = Tipo::NombreGenerico(
        "Caja".into(),
        vec![g("U"), Tipo::ArrayGenerico(bx(Tipo::Diccionario(bx(Tipo::Texto), bx(g("T")))), "N".into())],
    );
    let consts = vec![("N".to_string(), "6".to_string())];
    let tipos = vec![("T".to_string(), Tipo::Vector(bx(Tipo::Booleano))), ("U".to_string(), Tipo::Entero8)];
    let mut arg = Tipo::NombreGenerico(
        "Caja".into(),
        vec![g("U"), Tipo::ArrayGenerico(bx(Tipo::Diccionario(bx(Tipo::Texto), bx(g("T")))), "N".into())],
    );
    c.sustituir_tipo(&mut arg, &consts, &tipos);
    assert_eq!(c.extraer_tipo_generico(&arg, "T", &param), Some(Tipo::Vector(bx(Tipo::Booleano))));
    assert_eq!(c.extraer_tipo_generico(&arg, "U", &param), Some(Tipo::Entero8));
}
