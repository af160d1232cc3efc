use falcato::ast::{Expresion, Literal, Span, Tipo};
use falcato::codegen::imprimir::{
    carga_variable_interpolada, clasificar_segmento, conversion_valor_interpolado, formato_valor_interpolado, Conversion, formato_variable_interpolada, plan_imprimir,
    plan_interpolacion, segmentar_interpolacion, Extension, ParteInterpolada, PlanImpresion,
};

fn sp() -> Span {
    Span { linea: 1, columna: 1 }
}

fn seg(es_var: bool, t: &str) -> (bool, String) {
    (es_var, t.to_string())
}

#[test]
fn segmentos_de_un_saludo() {
    assert_eq!(
        segmentar_interpolacion("Hola {nombre}, tienes {edad} años"),
        vec![seg(false, "Hola "), seg(true, "nombre"), seg(false, ", tienes "), seg(true, "edad"), seg(false, " años")]
    );
}

#[test]
fn segmentos_sin_llaves() {
    assert_eq!(segmentar_interpolacion("sin nada"), vec![seg(false, "sin nada")]);
    assert_eq!(segmentar_interpolacion(""), Vec::<(bool, String)>::new());
}

#[test]
fn segmentos_contiguos_y_vacios() {
    assert_eq!(segmentar_interpolacion("{a}{b}"), vec![seg(true, "a"), seg(true, "b")]);
    assert_eq!(segmentar_interpolacion("{}"), vec![seg(true, "")]);
    assert_eq!(segmentar_interpolacion("x}y"), vec![seg(false, "x}y")]);
}

#[test]
fn llave_sin_cerrar() {
    // The placeholder runs to the end of the text.
    assert_eq!(segmentar_interpolacion("total: {suma"), vec![seg(false, "total: "), seg(true, "suma")]);
    assert_eq!(segmentar_interpolacion("{a{b}c"), vec![seg(true, "a{b"), seg(false, "c")]);
}

#[test]
fn reconstruccion_del_texto() {
    let texto = "Ñandú {x} y {y.z}!";
    let mut escrito = String::new();
    for (es_var, c) in segmentar_interpolacion(texto) {
        if es_var {
            escrito.push('{');
            escrito.push_str(&c);
            escrito.push('}');
        } else {
            escrito.push_str(&c);
        }
    }
    assert_eq!(escrito, texto);
}

#[test]
fn clasificacion_de_segmentos() {
    assert_eq!(clasificar_segmento(false, "a.b"), ParteInterpolada::Literal("a.b".into()));
    assert_eq!(clasificar_segmento(true, "edad"), ParteInterpolada::Variable("edad".into()));
    assert_eq!(
        clasificar_segmento(true, "args.nombre"),
        ParteInterpolada::Campo(Expresion::AccesoCampo(
            Box::new(Expresion::Identificador("args".into(), Span::vacio())),
            "nombre".into(),
            Span::vacio(),
        ))
    );
    assert_eq!(clasificar_segmento(true, "a.b.c"), ParteInterpolada::Omitida);
    assert_eq!(
        clasificar_segmento(true, "."),
        ParteInterpolada::Campo(Expresion::AccesoCampo(
            Box::new(Expresion::Identificador("".into(), Span::vacio())),
            "".into(),
            Span::vacio(),
        ))
    );
}

#[test]
fn plan_de_una_interpolacion() {
    assert_eq!(
        plan_interpolacion("p={p.x} n={n}", true),
        vec![
            ParteInterpolada::Literal("p=".into()),
            ParteInterpolada::Campo(Expresion::AccesoCampo(
                Box::new(Expresion::Identificador("p".into(), Span::vacio())),
                "x".into(),
                Span::vacio(),
            )),
            ParteInterpolada::Literal(" n=".into()),
            ParteInterpolada::Variable("n".into()),
            ParteInterpolada::FinDeLinea,
        ]
    );
    assert_eq!(plan_interpolacion("{x}", false), vec![ParteInterpolada::Variable("x".into())]);
}

#[test]
fn plan_de_impresion_por_tipo() {
    let x = vec![Expresion::Identificador("x".into(), sp())];
    assert_eq!(plan_imprimir(&x, &Tipo::Texto, true), PlanImpresion::Texto);
    assert_eq!(
        plan_imprimir(&x, &Tipo::Entero64, true),
        PlanImpresion::Entero("%lld\n".into(), Extension::Ninguna)
    );
    assert_eq!(plan_imprimir(&x, &Tipo::Natural64, false), PlanImpresion::Entero("%lld".into(), Extension::Ninguna));
    assert_eq!(plan_imprimir(&x, &Tipo::Entero32, false), PlanImpresion::Entero("%d".into(), Extension::Signo));
    assert_eq!(plan_imprimir(&x, &Tipo::Natural32, true), PlanImpresion::Entero("%d\n".into(), Extension::Signo));
    assert_eq!(plan_imprimir(&x, &Tipo::Entero8, false), PlanImpresion::Entero("%d".into(), Extension::Signo));
    assert_eq!(plan_imprimir(&x, &Tipo::Natural16, false), PlanImpresion::Entero("%d".into(), Extension::Cero));
    assert_eq!(plan_imprimir(&x, &Tipo::Booleano, true), PlanImpresion::Booleano);
    assert_eq!(plan_imprimir(&x, &Tipo::Flotante32, true), PlanImpresion::Flotante("%.17g\n".into()));
    assert_eq!(plan_imprimir(&x, &Tipo::Flotante64, false), PlanImpresion::Flotante("%.17g".into()));
    // Every integer type is printed as a number, signed ones widened by their sign.
    assert_eq!(plan_imprimir(&x, &Tipo::Entero16, true), PlanImpresion::Entero("%d\n".into(), Extension::Signo));
    assert_eq!(plan_imprimir(&x, &Tipo::Palabra, false), PlanImpresion::Puntero);
}

#[test]
fn plan_de_impresion_interpolada() {
    let con = vec![Expresion::Literal(Literal::Palabra("hola {x}".into(), sp()))];
    assert_eq!(plan_imprimir(&con, &Tipo::Palabra, true), PlanImpresion::Interpolada("hola {x}".into()));
    let sin = vec![Expresion::Literal(Literal::Palabra("hola".into(), sp()))];
    assert_eq!(plan_imprimir(&sin, &Tipo::Palabra, true), PlanImpresion::Puntero);
}

#[test]
fn formatos_de_variables_interpoladas() {
    assert_eq!(formato_variable_interpolada(&Tipo::Entero16), "%d\0");
    assert_eq!(formato_variable_interpolada(&Tipo::Entero64), "%lld\0");
    assert_eq!(formato_variable_interpolada(&Tipo::Natural8), "%u\0");
    assert_eq!(formato_variable_interpolada(&Tipo::Natural64), "%llu\0");
    assert_eq!(formato_variable_interpolada(&Tipo::Flotante32), "%.17g\0");
    assert_eq!(formato_variable_interpolada(&Tipo::Booleano), "%d\0");
    assert_eq!(formato_variable_interpolada(&Tipo::Caracter), "%c\0");
    assert_eq!(formato_variable_interpolada(&Tipo::Texto), "%s\0");
    assert_eq!(formato_variable_interpolada(&Tipo::Nombre("P".into())), "%s\0");
}

#[test]
fn formatos_de_campos_interpolados() {
    assert_eq!(formato_valor_interpolado(&Tipo::Caracter), "%d\0");
    assert_eq!(formato_valor_interpolado(&Tipo::Entero64), "%lld\0");
    assert_eq!(formato_valor_interpolado(&Tipo::Booleano), "%u\0");
    assert_eq!(formato_valor_interpolado(&Tipo::Natural64), "%llu\0");
    assert_eq!(formato_valor_interpolado(&Tipo::Flotante64), "%f\0");
    assert_eq!(formato_valor_interpolado(&Tipo::Texto), "%s\0");
}

#[test]
fn conversiones_de_valores_interpolados() {
    assert_eq!(carga_variable_interpolada(&Tipo::Entero8), (8, Conversion::Extender(Extension::Signo)));
    assert_eq!(carga_variable_interpolada(&Tipo::Entero32), (32, Conversion::Extender(Extension::Signo)));
    assert_eq!(carga_variable_interpolada(&Tipo::Natural16), (16, Conversion::Extender(Extension::Cero)));
    assert_eq!(carga_variable_interpolada(&Tipo::Caracter), (8, Conversion::Extender(Extension::Cero)));
    assert_eq!(carga_variable_interpolada(&Tipo::Entero64), (64, Conversion::Directa));
    assert_eq!(carga_variable_interpolada(&Tipo::Flotante32), (32, Conversion::FlotantePromovido));
    assert_eq!(carga_variable_interpolada(&Tipo::Flotante64), (64, Conversion::FlotanteBits));
    assert_eq!(carga_variable_interpolada(&Tipo::Texto), (64, Conversion::Caracteres));
    assert_eq!(conversion_valor_interpolado(&Tipo::Entero16), Conversion::Extender(Extension::Signo));
    assert_eq!(conversion_valor_interpolado(&Tipo::Booleano), Conversion::Extender(Extension::Cero));
    assert_eq!(conversion_valor_interpolado(&Tipo::Natural64), Conversion::Directa);
    assert_eq!(conversion_valor_interpolado(&Tipo::Texto), Conversion::Caracteres);
}
