use falcato::ast::{Articulo, Expresion, Literal, Llamada, OperadorBinario, Span, Tipo};
use falcato::codegen::desbordamiento::{comprobacion_checked, Comprobacion};
use falcato::codegen::enums::PlanEnum;
use falcato::codegen::errores::{manejador_builtin, ExtraManejador, Manejador};
use falcato::codegen::instanciacion::Especializaciones;
use falcato::codegen::{CategoriaError, Codegen, EnumLayout, ErrorCompilacion};

fn sp() -> Span {
    Span { linea: 5, columna: 2 }
}

fn id(n: &str) -> Expresion {
    Expresion::Identificador(n.into(), sp())
}

fn bin(op: OperadorBinario) -> Expresion {
    Expresion::Binaria(Box::new(id("a")), op, Box::new(id("b")), sp())
}

fn llamada(f: &str, args: Vec<Expresion>) -> Llamada {
    Llamada { funcion: f.into(), tipo_args: vec![], argumentos: args, span: sp() }
}

fn cg() -> Codegen {
    Codegen {
        enums: vec![
            EnumLayout {
                nombre: "Opcion".into(),
                variantes: vec![("Ninguno".into(), 0), ("Alguno".into(), 1)],
                tamano: 8,
                datos_offset: 4,
            },
            EnumLayout {
                nombre: "Forma".into(),
                variantes: vec![("Circulo".into(), 0), ("Rect".into(), 1)],
                tamano: 16,
                datos_offset: 8,
            },
        ],
        structs: vec![],
    }
}

#[test]
fn comprobaciones_de_desbordamiento() {
    assert_eq!(comprobacion_checked(&bin(OperadorBinario::Suma), &Tipo::Entero32), Ok(Comprobacion::SumaConSigno));
    assert_eq!(comprobacion_checked(&bin(OperadorBinario::Suma), &Tipo::Natural32), Ok(Comprobacion::SumaSinSigno));
    assert_eq!(comprobacion_checked(&bin(OperadorBinario::Resta), &Tipo::Entero64), Ok(Comprobacion::RestaConSigno));
    assert_eq!(comprobacion_checked(&bin(OperadorBinario::Resta), &Tipo::Natural8), Ok(Comprobacion::RestaSinSigno));
    assert_eq!(
        comprobacion_checked(&bin(OperadorBinario::Multiplicacion), &Tipo::Entero16),
        Ok(Comprobacion::ProductoConSigno)
    );
    assert_eq!(
        comprobacion_checked(&bin(OperadorBinario::Multiplicacion), &Tipo::Natural64),
        Ok(Comprobacion::ProductoSinSigno)
    );
    assert_eq!(
        comprobacion_checked(&bin(OperadorBinario::Division), &Tipo::Entero32),
        Err(ErrorCompilacion {
            categoria: CategoriaError::Interno,
            codigo: 1,
            mensaje: "Checked con operación no aritmética: Division".into(),
        })
    );
    assert_eq!(
        comprobacion_checked(&id("x"), &Tipo::Entero32),
        Err(ErrorCompilacion {
            categoria: CategoriaError::Interno,
            codigo: 1,
            mensaje: "Checked sin operación binaria interna".into(),
        })
    );
}

#[test]
fn las_pruebas_emitidas_son_exactas() {
    // The tests of `Comprobacion`, run on 32-bit values.
    let (a, b) = (i32::MAX, 1i32);
    let r = a.wrapping_add(b);
    assert!(((a ^ r) & (b ^ r)) >> 31 != 0);
    let (a, b) = (-5i32, 3i32);
    let r = a.wrapping_add(b);
    assert!(((a ^ r) & (b ^ r)) >> 31 == 0);
    let (a, b) = (3u32, 5u32);
    assert!(a.wrapping_sub(b) > a);
    let (a, b) = (70000u32, 70000u32);
    assert!(((a as u64 * b as u64) >> 32) != 0);
}

#[test]
fn constructores_de_enums() {
    let c = cg();
    assert_eq!(c.plan_constructor_enum("Opcion", "Alguno"), Ok(PlanEnum::Empaquetado { tag: 1, desplazamiento: 32 }));
    // An unknown variant takes the tag 0.
    assert_eq!(c.plan_constructor_enum("Opcion", "Otro"), Ok(PlanEnum::Empaquetado { tag: 0, desplazamiento: 32 }));
    assert_eq!(
        c.plan_constructor_enum("Forma", "Rect"),
        Ok(PlanEnum::EnMemoria { tamano: 16, tag: 1, datos_offset: 8 })
    );
    assert_eq!(
        c.plan_constructor_enum("Color", "Rojo"),
        Err(ErrorCompilacion {
            categoria: CategoriaError::Interno,
            codigo: 50,
            mensaje: "Enum 'Color' no registrado en codegen".into(),
        })
    );
    // The packed word gives back tag and data.
    let (tag, dato) = (1u64, 0xdead_beefu64);
    let p = tag | (dato << 32);
    assert_eq!(p & 0xffff_ffff, tag);
    assert_eq!(p >> 32, dato);
}

#[test]
fn especializaciones_ya_hechas() {
    let mut e = Especializaciones { entradas: vec![] };
    let clave = vec!["Entero64".to_string(), "3".to_string()];
    assert_eq!(e.buscar(&"primero".to_string(), &clave), None);
    e.registrar("primero".to_string(), clave.clone(), 7);
    e.registrar("primero".to_string(), vec!["Texto".to_string()], 8);
    assert_eq!(e.buscar(&"primero".to_string(), &clave), Some(7));
    assert_eq!(e.buscar(&"primero".to_string(), &vec!["Texto".to_string()]), Some(8));
    assert_eq!(e.buscar(&"otra".to_string(), &clave), None);
    assert_eq!(e.buscar(&"primero".to_string(), &vec!["Entero64".to_string()]), None);
}

#[test]
fn variables_que_se_mueven() {
    let c = cg();
    let vivas = vec!["v".to_string(), "w".to_string()];
    let art = vec![Articulo::El, Articulo::La, Articulo::Los, Articulo::El];
    let l = llamada("procesar", vec![id("v"), id("w"), id("x"), id("v")]);
    // v moves through `el`, w is borrowed by `la`, x holds no heap memory, v moves once.
    assert_eq!(c.variables_movidas(&l, &art, &vivas), vec!["v".to_string()]);
    let l2 = llamada("procesar", vec![Expresion::Literal(Literal::Entero(1, sp())), id("w")]);
    assert_eq!(c.variables_movidas(&l2, &vec![Articulo::El, Articulo::Los], &vivas), vec!["w".to_string()]);
    // A call freeing by hand hands over its first argument.
    assert_eq!(c.variables_movidas(&llamada("texto_liberar", vec![id("t")]), &vec![], &vivas), vec!["t".to_string()]);
    // Other built-ins move nothing.
    assert_eq!(c.variables_movidas(&llamada("imprimir", vec![id("v")]), &art, &vivas), Vec::<String>::new());
    // An undeclared function has no articles: nothing moves.
    assert_eq!(c.variables_movidas(&l, &vec![], &vivas), Vec::<String>::new());
}

#[test]
fn manejadores_de_builtins() {
    let m = |metodo: &str, extra: ExtraManejador| Manejador { metodo: metodo.into(), extra };
    assert_eq!(manejador_builtin(&llamada("imprimir", vec![])), Ok(m("builtin_imprimir", ExtraManejador::ConNewline(false))));
    assert_eq!(manejador_builtin(&llamada("decir", vec![])), Ok(m("builtin_imprimir", ExtraManejador::ConNewline(true))));
    assert_eq!(manejador_builtin(&llamada("texto_tam", vec![])), Ok(m("builtin_texto_longitud", ExtraManejador::Ninguno)));
    assert_eq!(
        manejador_builtin(&llamada("como_flotante32", vec![])),
        Ok(m("builtin_conversion_numerica", ExtraManejador::Destino(Tipo::Flotante32)))
    );
    assert_eq!(manejador_builtin(&llamada("seno_preciso", vec![])), Ok(m("builtin_seno", ExtraManejador::Ninguno)));
    assert_eq!(
        manejador_builtin(&llamada("proceso_leer_salida_completa", vec![])),
        Ok(m("builtin_proceso_leer_salida", ExtraManejador::Ninguno))
    );
    assert_eq!(
        manejador_builtin(&llamada("mi_funcion", vec![])),
        Err(ErrorCompilacion {
            categoria: CategoriaError::Interno,
            codigo: 80,
            mensaje: "Función built-in 'mi_funcion' no implementada".into(),
        })
    );
}

#[test]
fn errores_inmediatos_de_expresiones() {
    let c = cg();
    let vars = vec!["x".to_string()];
    assert_eq!(c.error_inmediato(&id("x"), &vars), None);
    assert_eq!(
        c.error_inmediato(&id("y"), &vars),
        Some(ErrorCompilacion { categoria: CategoriaError::Interno, codigo: 6, mensaje: "Variable 'y' no encontrada".into() })
    );
    assert_eq!(
        c.error_inmediato(&Expresion::Mover("z".into(), None, sp()), &vars),
        Some(ErrorCompilacion {
            categoria: CategoriaError::Interno,
            codigo: 52,
            mensaje: "Variable 'z' no encontrada en 'mover'".into(),
        })
    );
    let rango = Expresion::Rango(Box::new(id("x")), Box::new(id("x")), false, sp());
    assert_eq!(
        c.error_inmediato(&rango, &vars),
        Some(ErrorCompilacion {
            categoria: CategoriaError::Tipo,
            codigo: 41,
            mensaje: "Los rangos (..) solo pueden usarse dentro de un bucle 'para'".into(),
        })
    );
    let relleno = Expresion::ArrayRelleno(Box::new(id("x")), 4, sp());
    assert_eq!(c.error_inmediato(&relleno, &vars).map(|e| e.codigo), Some(22));
    assert_eq!(
        c.error_inmediato(&Expresion::Literal(Literal::Caracter('a', sp())), &vars).map(|e| e.codigo),
        Some(5)
    );
    assert_eq!(c.error_inmediato(&Expresion::Literal(Literal::Entero(1, sp())), &vars), None);
    let es = |e: &str| Expresion::EsVariante(Box::new(id("x")), e.into(), "Alguno".into(), None, sp());
    assert_eq!(c.error_inmediato(&es("Opcion"), &vars), None);
    assert_eq!(
        c.error_inmediato(&es("Color"), &vars).map(|e| e.mensaje),
        Some("Enum 'Color' no registrado en codegen".to_string())
    );
    let punto = Expresion::InicializacionStruct("Punto".into(), vec![], sp());
    assert_eq!(
        c.error_inmediato(&punto, &vars),
        Some(ErrorCompilacion {
            categoria: CategoriaError::Interno,
            codigo: 30,
            mensaje: "Struct 'Punto' no registrado en codegen".into(),
        })
    );
}

#[test]
fn pruebas_de_desbordamiento_a_otros_anchos() {
    let (a, b) = (i8::MAX, 1i8);
    let r = a.wrapping_add(b);
    assert!(((a ^ r) & (b ^ r)) >> 7 != 0);
    let (a, b) = (i64::MIN, 1i64);
    let r = a.wrapping_sub(b);
    assert!(((a ^ b) & (a ^ r)) >> 63 != 0);
    let (a, b) = (u16::MAX, 2u16);
    assert!(((a as u32 * b as u32) >> 16) != 0);
    let (a, b) = (3i64, -4i64);
    let p = a as i128 * b as i128;
    assert_eq!((p >> 64) as i64, (p as i64) >> 63);
}
