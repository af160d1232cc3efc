//! Deep copies of syntax trees, proved to preserve the model.

use vstd::prelude::*;
use crate::ast::{
    vista_brazos, vista_expresiones, vista_inicializaciones, vista_parametros_closure, vista_patron,
    vista_ramas, vista_sentencias, vista_texto_opt, vista_textos, vista_tipo_opt, vista_tipos,
    Asignacion, Bloque, BrazoMatch, BucleMientras, BuclePara, Condicional, DeclaracionVariable,
    Expresion, Literal, Llamada, Lugar, PatronMatch, RamaSeleccionar, Seleccionar, Sentencia, Tipo,
};

verus! {

pub fn clonar_texto_opt(o: &Option<String>) -> (r: Option<String>)
    ensures
        vista_texto_opt(r) == vista_texto_opt(*o),
{
    match o {
        Some(s) => Some(s.clone()),
        None => None,
    }
}

pub fn clonar_textos(v: &Vec<String>) -> (r: Vec<String>)
    ensures
        vista_textos(r@) == vista_textos(v@),
{
    let mut r: Vec<String> = Vec::new();
    let mut i: usize = 0;
    while i < v.len()
        invariant
            i <= v.len(),
            r@.len() == i,
            forall|j: int| 0 <= j < i ==> #[trigger] r@[j]@ == v@[j]@,
        decreases v.len() - i,
    {
        r.push(v[i].clone());
        i = i + 1;
    }
    assert(vista_textos(r@) =~= vista_textos(v@));
    r
}

pub fn clonar_tipo(t: &Tipo) -> (r: Tipo)
    ensures
        r@ == t@,
    decreases t,
{
    match t {
        Tipo::Entero8 => Tipo::Entero8,
        Tipo::Entero16 => Tipo::Entero16,
        Tipo::Entero32 => Tipo::Entero32,
        Tipo::Entero64 => Tipo::Entero64,
        Tipo::Natural8 => Tipo::Natural8,
        Tipo::Natural16 => Tipo::Natural16,
        Tipo::Natural32 => Tipo::Natural32,
        Tipo::Natural64 => Tipo::Natural64,
        Tipo::Flotante32 => Tipo::Flotante32,
        Tipo::Flotante64 => Tipo::Flotante64,
        Tipo::Booleano => Tipo::Booleano,
        Tipo::Caracter => Tipo::Caracter,
        Tipo::Palabra => Tipo::Palabra,
        Tipo::Texto => Tipo::Texto,
        Tipo::Vacio => Tipo::Vacio,
        Tipo::Nombre(n) => Tipo::Nombre(n.clone()),
        Tipo::Generico(n) => Tipo::Generico(n.clone()),
        Tipo::Array(t, n) => Tipo::Array(Box::new(clonar_tipo(t)), *n),
        Tipo::ArrayGenerico(t, n) => Tipo::ArrayGenerico(Box::new(clonar_tipo(t)), n.clone()),
        Tipo::Vector(t) => Tipo::Vector(Box::new(clonar_tipo(t))),
        Tipo::Diccionario(k, v) => Tipo::Diccionario(Box::new(clonar_tipo(k)), Box::new(clonar_tipo(v))),
        Tipo::Conjunto(t) => Tipo::Conjunto(Box::new(clonar_tipo(t))),
        Tipo::Resultado(t, e) => Tipo::Resultado(Box::new(clonar_tipo(t)), Box::new(clonar_tipo(e))),
        Tipo::Puntero(t) => Tipo::Puntero(Box::new(clonar_tipo(t))),
        Tipo::Referencia(t) => Tipo::Referencia(Box::new(clonar_tipo(t))),
        Tipo::ReferenciaMut(t) => Tipo::ReferenciaMut(Box::new(clonar_tipo(t))),
        Tipo::ReferenciaConLifetime(l, t) => Tipo::ReferenciaConLifetime(l.clone(), Box::new(clonar_tipo(t))),
        Tipo::ReferenciaMutConLifetime(l, t) => Tipo::ReferenciaMutConLifetime(l.clone(), Box::new(clonar_tipo(t))),
        Tipo::ReferenciaSelf(t) => Tipo::ReferenciaSelf(Box::new(clonar_tipo(t))),
        Tipo::ReferenciaMutSelf(t) => Tipo::ReferenciaMutSelf(Box::new(clonar_tipo(t))),
        Tipo::NombreGenerico(n, args) => {
            proof {
                assert(decreases_to!(*t => *args));
            }
            Tipo::NombreGenerico(n.clone(), clonar_tipos(args))
        },
    }
}

pub fn clonar_tipos(v: &Vec<Tipo>) -> (r: Vec<Tipo>)
    ensures
        vista_tipos(r@) == vista_tipos(v@),
    decreases v,
{
    let mut r: Vec<Tipo> = Vec::new();
    let mut i: usize = 0;
    while i < v.len()
        invariant
            i <= v.len(),
            vista_tipos(r@) == vista_tipos(v@.take(i as int)),
        decreases v.len() - i,
    {
        proof {
            assert(decreases_to!(*v => v@));
            assert(decreases_to!(v@ => v@[i as int]));
        }
        let c = clonar_tipo(&v[i]);
        proof {
            assert(v@.take(i + 1).drop_last() =~= v@.take(i as int));
            assert(r@.push(c).drop_last() =~= r@);
        }
        r.push(c);
        i = i + 1;
    }
    assert(v@.take(v.len() as int) =~= v@);
    r
}

pub fn clonar_tipo_opt(o: &Option<Tipo>) -> (r: Option<Tipo>)
    ensures
        vista_tipo_opt(r) == vista_tipo_opt(*o),
{
    match o {
        Some(t) => Some(clonar_tipo(t)),
        None => None,
    }
}

pub fn clonar_literal(l: &Literal) -> (r: Literal)
    ensures
        r@ == l@,
{
    match l {
        Literal::Entero(n, s) => Literal::Entero(*n, *s),
        Literal::Flotante(b, s) => Literal::Flotante(*b, *s),
        Literal::Booleano(b, s) => Literal::Booleano(*b, *s),
        Literal::Caracter(c, s) => Literal::Caracter(*c, *s),
        Literal::Palabra(p, s) => Literal::Palabra(p.clone(), *s),
    }
}

pub fn clonar_patron(p: &PatronMatch) -> (r: PatronMatch)
    ensures
        vista_patron(r) == vista_patron(*p),
{
    match p {
        PatronMatch::Comodin(s) => PatronMatch::Comodin(*s),
        PatronMatch::Literal(l) => PatronMatch::Literal(clonar_literal(l)),
        PatronMatch::VarianteEnum(e, v, b, s) => PatronMatch::VarianteEnum(
            e.clone(),
            v.clone(),
            clonar_texto_opt(b),
            *s,
        ),
    }
}

pub fn clonar_parametros_closure(v: &Vec<(String, Option<Tipo>)>) -> (r: Vec<(String, Option<Tipo>)>)
    ensures
        vista_parametros_closure(r@) == vista_parametros_closure(v@),
{
    let mut r: Vec<(String, Option<Tipo>)> = Vec::new();
    let mut i: usize = 0;
    while i < v.len()
        invariant
            i <= v.len(),
            r@.len() == i,
            forall|j: int|
                0 <= j < i ==> (#[trigger] r@[j]).0@ == v@[j].0@ && vista_tipo_opt(r@[j].1)
                    == vista_tipo_opt(v@[j].1),
        decreases v.len() - i,
    {
        let n = v[i].0.clone();
        let t = clonar_tipo_opt(&v[i].1);
        r.push((n, t));
        i = i + 1;
    }
    assert(vista_parametros_closure(r@) =~= vista_parametros_closure(v@));
    r
}

pub fn clonar_expresion(e: &Expresion) -> (r: Expresion)
    ensures
        r@ == e@,
    decreases e,
{
    match e {
        Expresion::Literal(l) => Expresion::Literal(clonar_literal(l)),
        Expresion::Identificador(n, s) => Expresion::Identificador(n.clone(), *s),
        Expresion::Binaria(a, op, b, s) => Expresion::Binaria(
            Box::new(clonar_expresion(a)),
            *op,
            Box::new(clonar_expresion(b)),
            *s,
        ),
        Expresion::Checked(a, s) => Expresion::Checked(Box::new(clonar_expresion(a)), *s),
        Expresion::Unaria(op, a, s) => Expresion::Unaria(*op, Box::new(clonar_expresion(a)), *s),
        Expresion::Llamada(l) => {
            proof {
                assert(decreases_to!(*e => l.argumentos));
            }
            Expresion::Llamada(
                Llamada {
                    funcion: l.funcion.clone(),
                    tipo_args: clonar_tipos(&l.tipo_args),
                    argumentos: clonar_expresiones(&l.argumentos),
                    span: l.span,
                },
            )
        },
        Expresion::LiteralArray(v, s) => Expresion::LiteralArray(clonar_expresiones(v), *s),
        Expresion::AccesoArray(a, i, s) => Expresion::AccesoArray(
            Box::new(clonar_expresion(a)),
            Box::new(clonar_expresion(i)),
            *s,
        ),
        Expresion::ArrayRelleno(a, n, s) => Expresion::ArrayRelleno(Box::new(clonar_expresion(a)), *n, *s),
        Expresion::InicializacionStruct(n, c, s) => Expresion::InicializacionStruct(
            n.clone(),
            clonar_inicializaciones(c),
            *s,
        ),
        Expresion::AccesoCampo(a, c, s) => Expresion::AccesoCampo(Box::new(clonar_expresion(a)), c.clone(), *s),
        Expresion::ConstructorEnum(en, v, a, s) => Expresion::ConstructorEnum(
            en.clone(),
            v.clone(),
            clonar_expresiones(a),
            *s,
        ),
        Expresion::EsVariante(a, en, v, b, s) => Expresion::EsVariante(
            Box::new(clonar_expresion(a)),
            en.clone(),
            v.clone(),
            clonar_texto_opt(b),
            *s,
        ),
        Expresion::Ruta(p, s) => Expresion::Ruta(clonar_textos(p), *s),
        Expresion::Propagacion(a, s) => Expresion::Propagacion(Box::new(clonar_expresion(a)), *s),
        Expresion::Mover(n, d, s) => Expresion::Mover(n.clone(), clonar_texto_opt(d), *s),
        Expresion::Copiar(a, s) => Expresion::Copiar(Box::new(clonar_expresion(a)), *s),
        Expresion::Rango(a, b, inc, s) => Expresion::Rango(
            Box::new(clonar_expresion(a)),
            Box::new(clonar_expresion(b)),
            *inc,
            *s,
        ),
        Expresion::Closure(p, c, s) => Expresion::Closure(
            clonar_parametros_closure(p),
            Box::new(clonar_expresion(c)),
            *s,
        ),
        Expresion::Coincidir(a, brazos, s) => Expresion::Coincidir(
            Box::new(clonar_expresion(a)),
            clonar_brazos(brazos),
            *s,
        ),
        Expresion::Esperar(a, s) => Expresion::Esperar(Box::new(clonar_expresion(a)), *s),
        Expresion::Lanzar(a, s) => Expresion::Lanzar(Box::new(clonar_expresion(a)), *s),
        Expresion::DireccionDe(n, s) => Expresion::DireccionDe(n.clone(), *s),
        Expresion::Bloque(b) => {
            proof {
                assert(decreases_to!(*e => b.sentencias));
            }
            Expresion::Bloque(Bloque { sentencias: clonar_sentencias(&b.sentencias), span: b.span })
        },
        Expresion::Bloquear(a, s) => Expresion::Bloquear(Box::new(clonar_expresion(a)), *s),
        Expresion::Metodo(a, n, args, s) => Expresion::Metodo(
            Box::new(clonar_expresion(a)),
            n.clone(),
            clonar_expresiones(args),
            *s,
        ),
    }
}

pub fn clonar_expresiones(v: &Vec<Expresion>) -> (r: Vec<Expresion>)
    ensures
        vista_expresiones(r@) == vista_expresiones(v@),
    decreases v,
{
    let mut r: Vec<Expresion> = Vec::new();
    let mut i: usize = 0;
    while i < v.len()
        invariant
            i <= v.len(),
            vista_expresiones(r@) == vista_expresiones(v@.take(i as int)),
        decreases v.len() - i,
    {
        proof {
            assert(decreases_to!(*v => v@));
            assert(decreases_to!(v@ => v@[i as int]));
        }
        let c = clonar_expresion(&v[i]);
        proof {
            assert(v@.take(i + 1).drop_last() =~= v@.take(i as int));
            assert(r@.push(c).drop_last() =~= r@);
        }
        r.push(c);
        i = i + 1;
    }
    assert(v@.take(v.len() as int) =~= v@);
    r
}

pub fn clonar_inicializaciones(v: &Vec<(String, Expresion)>) -> (r: Vec<(String, Expresion)>)
    ensures
        vista_inicializaciones(r@) == vista_inicializaciones(v@),
    decreases v,
{
    let mut r: Vec<(String, Expresion)> = Vec::new();
    let mut i: usize = 0;
    while i < v.len()
        invariant
            i <= v.len(),
            vista_inicializaciones(r@) == vista_inicializaciones(v@.take(i as int)),
        decreases v.len() - i,
    {
        proof {
            assert(decreases_to!(*v => v@));
            assert(decreases_to!(v@ => v@[i as int]));
            assert(decreases_to!(v@[i as int] => v@[i as int].1));
        }
        let n = v[i].0.clone();
        let c = clonar_expresion(&v[i].1);
        proof {
            assert(v@.take(i + 1).drop_last() =~= v@.take(i as int));
            assert(r@.push((n, c)).drop_last() =~= r@);
        }
        r.push((n, c));
        i = i + 1;
    }
    assert(v@.take(v.len() as int) =~= v@);
    r
}

pub fn clonar_brazos(v: &Vec<BrazoMatch>) -> (r: Vec<BrazoMatch>)
    ensures
        vista_brazos(r@) == vista_brazos(v@),
    decreases v,
{
    let mut r: Vec<BrazoMatch> = Vec::new();
    let mut i: usize = 0;
    while i < v.len()
        invariant
            i <= v.len(),
            vista_brazos(r@) == vista_brazos(v@.take(i as int)),
        decreases v.len() - i,
    {
        proof {
            assert(decreases_to!(*v => v@));
            assert(decreases_to!(v@ => v@[i as int]));
            assert(decreases_to!(v@[i as int] => v@[i as int].cuerpo));
        }
        let b = BrazoMatch {
            patron: clonar_patron(&v[i].patron),
            cuerpo: clonar_expresion(&v[i].cuerpo),
            span: v[i].span,
        };
        proof {
            assert(v@.take(i + 1).drop_last() =~= v@.take(i as int));
            assert(r@.push(b).drop_last() =~= r@);
        }
        r.push(b);
        i = i + 1;
    }
    assert(v@.take(v.len() as int) =~= v@);
    r
}

pub fn clonar_bloque(b: &Bloque) -> (r: Bloque)
    ensures
        r@ == b@,
    decreases b,
{
    proof {
        assert(decreases_to!(*b => b.sentencias));
    }
    Bloque { sentencias: clonar_sentencias(&b.sentencias), span: b.span }
}

pub fn clonar_sentencia(st: &Sentencia) -> (r: Sentencia)
    ensures
        r@ == st@,
    decreases st,
{
    match st {
        Sentencia::Expresion(e) => Sentencia::Expresion(clonar_expresion(e)),
        Sentencia::DeclaracionVariable(d) => {
            proof {
                assert(decreases_to!(*st => d.valor));
            }
            Sentencia::DeclaracionVariable(
                DeclaracionVariable {
                    articulo: d.articulo,
                    nombre: d.nombre.clone(),
                    tipo: clonar_tipo_opt(&d.tipo),
                    valor: clonar_expresion(&d.valor),
                    span: d.span,
                },
            )
        },
        Sentencia::Asignacion(a) => {
            proof {
                assert(decreases_to!(*st => a.valor));
            }
            let lugar = match &a.lugar {
                Lugar::Identificador(n) => Lugar::Identificador(n.clone()),
                Lugar::Campo(b, c) => Lugar::Campo(b.clone(), c.clone()),
            };
            Sentencia::Asignacion(Asignacion { lugar, valor: clonar_expresion(&a.valor), span: a.span })
        },
        Sentencia::Retornar(e, s) => {
            let e2 = match e {
                Some(x) => {
                    proof {
                        assert(decreases_to!(*st => *e));
                        assert(decreases_to!(*e => *x));
                    }
                    Some(clonar_expresion(x))
                },
                None => None,
            };
            Sentencia::Retornar(e2, *s)
        },
        Sentencia::Romper(s) => Sentencia::Romper(*s),
        Sentencia::Continuar(s) => Sentencia::Continuar(*s),
        Sentencia::Condicional(c) => {
            proof {
                assert(decreases_to!(*st => c.condicion));
                assert(decreases_to!(*st => c.bloque_entonces));
            }
            let sino = match &c.bloque_sino {
                Some(b) => {
                    proof {
                        assert(decreases_to!(*st => c.bloque_sino));
                        assert(decreases_to!(c.bloque_sino => *b));
                    }
                    Some(clonar_bloque(b))
                },
                None => None,
            };
            Sentencia::Condicional(
                Condicional {
                    condicion: clonar_expresion(&c.condicion),
                    bloque_entonces: clonar_bloque(&c.bloque_entonces),
                    bloque_sino: sino,
                    modo: c.modo,
                    span: c.span,
                },
            )
        },
        Sentencia::BucleMientras(b) => {
            proof {
                assert(decreases_to!(*st => b.condicion));
                assert(decreases_to!(*st => b.bloque));
            }
            Sentencia::BucleMientras(
                BucleMientras {
                    condicion: clonar_expresion(&b.condicion),
                    bloque: clonar_bloque(&b.bloque),
                    span: b.span,
                },
            )
        },
        Sentencia::BuclePara(b) => {
            proof {
                assert(decreases_to!(*st => b.iterable));
                assert(decreases_to!(*st => b.bloque));
            }
            Sentencia::BuclePara(
                BuclePara {
                    variable: b.variable.clone(),
                    iterable: clonar_expresion(&b.iterable),
                    bloque: clonar_bloque(&b.bloque),
                    span: b.span,
                },
            )
        },
        Sentencia::Region { nombre, cuerpo, span } => Sentencia::Region {
            nombre: nombre.clone(),
            cuerpo: clonar_sentencias(cuerpo),
            span: *span,
        },
        Sentencia::Seleccionar(s) => {
            proof {
                assert(decreases_to!(*st => s.ramas));
            }
            Sentencia::Seleccionar(Seleccionar { ramas: clonar_ramas(&s.ramas), span: s.span })
        },
        Sentencia::ConExecutor { hilos, cuerpo, span } => Sentencia::ConExecutor {
            hilos: *hilos,
            cuerpo: clonar_sentencias(cuerpo),
            span: *span,
        },
    }
}

pub fn clonar_sentencias(v: &Vec<Sentencia>) -> (r: Vec<Sentencia>)
    ensures
        vista_sentencias(r@) == vista_sentencias(v@),
    decreases v,
{
    let mut r: Vec<Sentencia> = Vec::new();
    let mut i: usize = 0;
    while i < v.len()
        invariant
            i <= v.len(),
            vista_sentencias(r@) == vista_sentencias(v@.take(i as int)),
        decreases v.len() - i,
    {
        proof {
            assert(decreases_to!(*v => v@));
            assert(decreases_to!(v@ => v@[i as int]));
        }
        let c = clonar_sentencia(&v[i]);
        proof {
            assert(v@.take(i + 1).drop_last() =~= v@.take(i as int));
            assert(r@.push(c).drop_last() =~= r@);
        }
        r.push(c);
        i = i + 1;
    }
    assert(v@.take(v.len() as int) =~= v@);
    r
}

pub fn clonar_ramas(v: &Vec<RamaSeleccionar>) -> (r: Vec<RamaSeleccionar>)
    ensures
        vista_ramas(r@) == vista_ramas(v@),
    decreases v,
{
    let mut r: Vec<RamaSeleccionar> = Vec::new();
    let mut i: usize = 0;
    while i < v.len()
        invariant
            i <= v.len(),
            vista_ramas(r@) == vista_ramas(v@.take(i as int)),
        decreases v.len() - i,
    {
        proof {
            assert(decreases_to!(*v => v@));
            assert(decreases_to!(v@ => v@[i as int]));
            assert(decreases_to!(v@[i as int] => v@[i as int].operacion));
            assert(decreases_to!(v@[i as int] => v@[i as int].cuerpo));
        }
        let rama = RamaSeleccionar {
            operacion: clonar_expresion(&v[i].operacion),
            cuerpo: clonar_bloque(&v[i].cuerpo),
            span: v[i].span,
        };
        proof {
            assert(v@.take(i + 1).drop_last() =~= v@.take(i as int));
            assert(r@.push(rama).drop_last() =~= r@);
        }
        r.push(rama);
        i = i + 1;
    }
    assert(v@.take(v.len() as int) =~= v@);
    r
}

} // verus!
