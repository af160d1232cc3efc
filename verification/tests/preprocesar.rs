use falcato::args_tipados::preprocesar;
use falcato::ast::{
    Articulo, Bloque, Campo, Declaracion, EstructuraDecl, Expresion, FuncionDecl, Literal, Lugar, Parametro,
    Programa, Sentencia, Span, Tipo, Visibilidad,
};

fn sp() -> Span {
    Span { linea: 0, columna: 0 }
}

fn campo(art: Articulo, nombre: &str, tipo: Tipo) -> Campo {
    Campo { articulo: art, nombre: nombre.to_string(), tipo }
}

fn estructura(nombre: &str, campos: Vec<Campo>) -> Declaracion {
    Declaracion::Estructural(EstructuraDecl { nombre: nombre.to_string(), campos, span: Span { linea: 3, columna: 1 } })
}

fn funcion(nombre: &str, parametros: Vec<Parametro>, cuerpo: Vec<Sentencia>) -> FuncionDecl {
    FuncionDecl {
        nombre: nombre.to_string(),
        parametros_genericos: vec![],
        parametros,
        retorno: Some(Tipo::Entero32),
        cuerpo: Bloque { sentencias: cuerpo, span: Span { linea: 7, columna: 2 } },
        es_insegura: false,
        es_vectorizable: false,
        nivel_verificacion: 2,
        efecto: None,
        visibilidad: Visibilidad::Publica,
        es_futuro: false,
        span: Span { linea: 7, columna: 1 },
    }
}

fn param(art: Articulo, nombre: &str, tipo: Tipo) -> Parametro {
    Parametro { articulo: art, nombre: nombre.to_string(), tipo }
}

fn retornar_cero() -> Sentencia {
    Sentencia::Retornar(Some(Expresion::Literal(Literal::Entero(0, Span { linea: 8, columna: 5 }))), Span { linea: 8, columna: 1 })
}

fn programa_ejemplo(campos: Vec<Campo>) -> Programa {
    Programa {
        declaraciones: vec![
            estructura("Args", campos),
            Declaracion::Funcion(funcion(
                "principal",
                vec![param(Articulo::El, "args", Tipo::Nombre("Args".to_string()))],
                vec![retornar_cero()],
            )),
        ],
    }
}

fn nombre_declarado(s: &Sentencia) -> Option<String> {
    match s {
        Sentencia::DeclaracionVariable(d) => Some(d.nombre.clone()),
        _ => None,
    }
}

#[test]
fn reescribe_principal_con_dos_campos() {
    let mut p = programa_ejemplo(vec![
        campo(Articulo::El, "nombre", Tipo::Texto),
        campo(Articulo::Un, "edad", Tipo::Entero32),
    ]);
    assert_eq!(preprocesar(&mut p), Ok(()));
    assert_eq!(p.declaraciones.len(), 2);
    // the struct is untouched
    assert_eq!(
        p.declaraciones[0],
        estructura("Args", vec![campo(Articulo::El, "nombre", Tipo::Texto), campo(Articulo::Un, "edad", Tipo::Entero32)])
    );
    let f = match &p.declaraciones[1] {
        Declaracion::Funcion(f) => f,
        _ => panic!("principal debe seguir siendo una función"),
    };
    assert_eq!(f.nombre, "principal");
    assert!(f.parametros.is_empty());
    assert_eq!(f.retorno, Some(Tipo::Entero32));
    assert_eq!(f.span, Span { linea: 7, columna: 1 });
    assert_eq!(f.cuerpo.span, sp());
    // 2 + 2 fields + 1 flag + 2 labels + 4 + 1 check + 2 frees + 3, then the original body
    let s = &f.cuerpo.sentencias;
    assert_eq!(s.len(), 18);
    let nombres: Vec<Option<String>> = s.iter().map(nombre_declarado).collect();
    assert_eq!(nombres[0].as_deref(), Some("__argv"));
    assert_eq!(nombres[1].as_deref(), Some("__n"));
    assert_eq!(nombres[2].as_deref(), Some("__campo_0"));
    assert_eq!(nombres[3].as_deref(), Some("__campo_1"));
    assert_eq!(nombres[4].as_deref(), Some("__visto_0"));
    assert_eq!(nombres[5].as_deref(), Some("__etiqueta_0"));
    assert_eq!(nombres[6].as_deref(), Some("__etiqueta_1"));
    assert_eq!(nombres[7].as_deref(), Some("__etiqueta_ayuda"));
    assert_eq!(nombres[8].as_deref(), Some("__etiqueta_h"));
    assert_eq!(nombres[9].as_deref(), Some("__i"));
    assert!(matches!(s[10], Sentencia::BucleMientras(_)));
    assert!(matches!(s[11], Sentencia::Condicional(_)));
    assert!(matches!(s[12], Sentencia::Expresion(_)));
    assert!(matches!(s[13], Sentencia::Expresion(_)));
    assert!(matches!(s[14], Sentencia::Expresion(_)));
    assert!(matches!(s[15], Sentencia::Expresion(_)));
    assert_eq!(nombres[16].as_deref(), Some("args"));
    assert_eq!(s[17], retornar_cero());
    // __argv: los __argv: Vector<Texto> = argumentos()
    match &s[0] {
        Sentencia::DeclaracionVariable(d) => {
            assert_eq!(d.articulo, Articulo::Los);
            assert_eq!(d.tipo, Some(Tipo::Vector(Box::new(Tipo::Texto))));
        }
        _ => unreachable!(),
    }
    // the default of a Texto field is texto_nuevo(), of an Entero32 field 0
    match (&s[2], &s[3]) {
        (Sentencia::DeclaracionVariable(a), Sentencia::DeclaracionVariable(b)) => {
            assert!(matches!(&a.valor, Expresion::Llamada(l) if l.funcion == "texto_nuevo" && l.argumentos.is_empty()));
            assert_eq!(b.valor, Expresion::Literal(Literal::Entero(0, sp())));
        }
        _ => unreachable!(),
    }
    // the labels are --nombre and --edad
    match &s[6] {
        Sentencia::DeclaracionVariable(d) => match &d.valor {
            Expresion::Llamada(l) => {
                assert_eq!(l.funcion, "texto_desde");
                assert_eq!(l.argumentos, vec![Expresion::Literal(Literal::Palabra("--edad".to_string(), sp()))]);
            }
            _ => unreachable!(),
        },
        _ => unreachable!(),
    }
    // the required check names the flag
    match &s[11] {
        Sentencia::Condicional(c) => match &c.bloque_entonces.sentencias[0] {
            Sentencia::Expresion(Expresion::Llamada(l)) => assert_eq!(
                l.argumentos,
                vec![Expresion::Literal(Literal::Palabra("Falta el argumento requerido: --nombre".to_string(), sp()))]
            ),
            _ => unreachable!(),
        },
        _ => unreachable!(),
    }
    // args is built from the field variables, with the parameter's article
    match &s[16] {
        Sentencia::DeclaracionVariable(d) => {
            assert_eq!(d.articulo, Articulo::El);
            assert_eq!(d.tipo, Some(Tipo::Nombre("Args".to_string())));
            assert_eq!(
                d.valor,
                Expresion::InicializacionStruct(
                    "Args".to_string(),
                    vec![
                        ("nombre".to_string(), Expresion::Identificador("__campo_0".to_string(), sp())),
                        ("edad".to_string(), Expresion::Identificador("__campo_1".to_string(), sp())),
                    ],
                    sp()
                )
            );
        }
        _ => unreachable!(),
    }
}

#[test]
fn el_bucle_reconoce_ayuda_y_cada_campo() {
    let mut p = programa_ejemplo(vec![campo(Articulo::La, "puerto", Tipo::Natural32)]);
    assert_eq!(preprocesar(&mut p), Ok(()));
    let f = match &p.declaraciones[1] {
        Declaracion::Funcion(f) => f,
        _ => unreachable!(),
    };
    let bucle = f.cuerpo.sentencias.iter().find_map(|s| match s {
        Sentencia::BucleMientras(b) => Some(b),
        _ => None,
    });
    let b = bucle.expect("el prólogo tiene un bucle");
    // __arg, --ayuda, -h, one per field, __i = __i + 1
    assert_eq!(b.bloque.sentencias.len(), 5);
    match &b.bloque.sentencias[1] {
        Sentencia::Condicional(c) => {
            let ayuda = &c.bloque_entonces.sentencias;
            assert_eq!(ayuda.len(), 3);
            match &ayuda[0] {
                Sentencia::Expresion(Expresion::Llamada(l)) => assert_eq!(
                    l.argumentos,
                    vec![Expresion::Literal(Literal::Palabra("Uso: principal [--puerto <valor>]".to_string(), sp()))]
                ),
                _ => unreachable!(),
            }
            match &ayuda[1] {
                Sentencia::Expresion(Expresion::Llamada(l)) => assert_eq!(
                    l.argumentos,
                    vec![Expresion::Literal(Literal::Palabra(
                        "Ayuda: Uso: principal [--puerto <valor>].".to_string(),
                        sp()
                    ))]
                ),
                _ => unreachable!(),
            }
        }
        _ => unreachable!(),
    }
    match &b.bloque.sentencias[3] {
        Sentencia::Condicional(c) => {
            let cuerpo = &c.bloque_entonces.sentencias;
            // __val, __campo_0 = conversion, __visto_0 = verdadero, __i = __i + 1
            assert_eq!(cuerpo.len(), 4);
            match &cuerpo[1] {
                Sentencia::Asignacion(a) => {
                    assert_eq!(a.lugar, Lugar::Identificador("__campo_0".to_string()));
                    match &a.valor {
                        Expresion::Llamada(l) => {
                            assert_eq!(l.funcion, "como_entero32");
                            assert!(matches!(&l.argumentos[0], Expresion::Llamada(i) if i.funcion == "texto_a_natural"));
                        }
                        _ => unreachable!(),
                    }
                }
                _ => unreachable!(),
            }
            match &cuerpo[2] {
                Sentencia::Asignacion(a) => {
                    assert_eq!(a.lugar, Lugar::Identificador("__visto_0".to_string()));
                    assert_eq!(a.valor, Expresion::Literal(Literal::Booleano(true, sp())));
                }
                _ => unreachable!(),
            }
        }
        _ => unreachable!(),
    }
}

#[test]
fn rechaza_campos_posicionales() {
    let mut p = programa_ejemplo(vec![
        campo(Articulo::El, "a", Tipo::Texto),
        campo(Articulo::Los, "resto", Tipo::Texto),
    ]);
    let antes = programa_ejemplo(vec![
        campo(Articulo::El, "a", Tipo::Texto),
        campo(Articulo::Los, "resto", Tipo::Texto),
    ]);
    assert_eq!(
        preprocesar(&mut p),
        Err("Campo 'resto' del struct de argumentos 'Args' usa artículo 'los': los argumentos posicionales (varargs) aún no están soportados en la Fase 2 — usa 'el' (requerido), 'un' (opcional) o 'la' (inmutable)".to_string())
    );
    assert_eq!(p, antes);
}

#[test]
fn rechaza_las() {
    let mut p = programa_ejemplo(vec![campo(Articulo::Las, "cosas", Tipo::Entero32)]);
    let r = preprocesar(&mut p);
    assert!(r.unwrap_err().contains("usa artículo 'las'"));
}

#[test]
fn rechaza_tipos_no_soportados() {
    let mut p = programa_ejemplo(vec![
        campo(Articulo::Un, "x", Tipo::Flotante32),
        campo(Articulo::Los, "y", Tipo::Texto),
    ]);
    assert_eq!(
        preprocesar(&mut p),
        Err("Campo 'x' del struct de argumentos 'Args' tiene tipo no soportado para parseo tipado (soportados: Texto, Entero32, Entero64, Natural32, Natural64, Flotante64, Booleano)".to_string())
    );
}

#[test]
fn sin_principal_no_cambia_nada() {
    let mut p = Programa {
        declaraciones: vec![Declaracion::Funcion(funcion("otra", vec![param(Articulo::El, "a", Tipo::Nombre("Args".into()))], vec![]))],
    };
    let antes = Programa {
        declaraciones: vec![Declaracion::Funcion(funcion("otra", vec![param(Articulo::El, "a", Tipo::Nombre("Args".into()))], vec![]))],
    };
    assert_eq!(preprocesar(&mut p), Ok(()));
    assert_eq!(p, antes);
}

#[test]
fn principal_sin_parametros_no_cambia() {
    let mut p = Programa { declaraciones: vec![Declaracion::Funcion(funcion("principal", vec![], vec![retornar_cero()]))] };
    assert_eq!(preprocesar(&mut p), Ok(()));
    assert_eq!(p, Programa { declaraciones: vec![Declaracion::Funcion(funcion("principal", vec![], vec![retornar_cero()]))] });
}

#[test]
fn parametro_que_no_es_struct_no_cambia() {
    let hacer = || Programa {
        declaraciones: vec![Declaracion::Funcion(funcion("principal", vec![param(Articulo::El, "n", Tipo::Entero32)], vec![]))],
    };
    let mut p = hacer();
    assert_eq!(preprocesar(&mut p), Ok(()));
    assert_eq!(p, hacer());
}

#[test]
fn struct_no_declarado_no_cambia() {
    let hacer = || Programa {
        declaraciones: vec![
            estructura("Otro", vec![]),
            Declaracion::Funcion(funcion("principal", vec![param(Articulo::El, "a", Tipo::Nombre("Args".into()))], vec![])),
        ],
    };
    let mut p = hacer();
    assert_eq!(preprocesar(&mut p), Ok(()));
    assert_eq!(p, hacer());
}

#[test]
fn preprocesar_dos_veces_no_cambia_mas() {
    let mut p = programa_ejemplo(vec![campo(Articulo::El, "nombre", Tipo::Texto)]);
    assert_eq!(preprocesar(&mut p), Ok(()));
    let despues: String = format!("{:?}", p);
    assert_eq!(preprocesar(&mut p), Ok(()));
    assert_eq!(format!("{:?}", p), despues);
}
