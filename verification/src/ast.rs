//! Abstract syntax tree of Falcato programs, and its mathematical model.
//!
//! Every executable node type has a `Spec*` counterpart in which each `String`
//! is replaced by its character sequence and each `Vec` by a `Seq`.  The view
//! functions (`vista_*`) map a node to its model; all contracts of the library
//! are stated over these models.

use vstd::prelude::*;

verus! {

// ───────────────────────────── plain enums ─────────────────────────────

/// Position of a node in the source text.
#[derive(Clone, Copy, Debug, PartialEq, Eq, Structural)]
pub struct Span {
    pub linea: usize,
    pub columna: usize,
}

/// The position used for synthesized nodes.
pub open spec fn span_vacio() -> Span {
    Span { linea: 0, columna: 0 }
}

impl Span {
    /// The empty position, used for nodes that the compiler synthesizes.
    pub fn vacio() -> (s: Span)
        ensures
            s == span_vacio(),
    {
        Span { linea: 0, columna: 0 }
    }
}

/// The article in front of a declaration: it encodes ownership.
#[derive(Clone, Copy, Debug, PartialEq, Eq, Structural)]
pub enum Articulo {
    El,
    La,
    Los,
    Las,
    Un,
    Una,
}

#[derive(Clone, Copy, Debug, PartialEq, Eq, Structural)]
pub enum ModoVerbal {
    Indicativo,
    Subjuntivo,
    Imperativo,
}

#[derive(Clone, Copy, Debug, PartialEq, Eq, Structural)]
pub enum Visibilidad {
    Publica,
    Privada,
}

#[derive(Clone, Copy, Debug, PartialEq, Eq, Structural)]
pub enum OperadorBinario {
    Suma,
    Resta,
    Multiplicacion,
    Division,
    Modulo,
    Igual,
    Distinto,
    Menor,
    MenorIgual,
    Mayor,
    MayorIgual,
    Y,
    O,
}

#[derive(Clone, Copy, Debug, PartialEq, Eq, Structural)]
pub enum OperadorUnario {
    Negacion,
    No,
    Referencia,
    ReferenciaMut,
    Desreferencia,
}

// ───────────────────────────── types ─────────────────────────────

/// A type of the language.
#[derive(Debug, PartialEq)]
pub enum Tipo {
    Entero8,
    Entero16,
    Entero32,
    Entero64,
    Natural8,
    Natural16,
    Natural32,
    Natural64,
    Flotante32,
    Flotante64,
    Booleano,
    Caracter,
    Palabra,
    Texto,
    Vacio,
    Nombre(String),
    Generico(String),
    Array(Box<Tipo>, usize),
    ArrayGenerico(Box<Tipo>, String),
    Vector(Box<Tipo>),
    Diccionario(Box<Tipo>, Box<Tipo>),
    Conjunto(Box<Tipo>),
    Resultado(Box<Tipo>, Box<Tipo>),
    Puntero(Box<Tipo>),
    Referencia(Box<Tipo>),
    ReferenciaMut(Box<Tipo>),
    ReferenciaConLifetime(String, Box<Tipo>),
    ReferenciaMutConLifetime(String, Box<Tipo>),
    ReferenciaSelf(Box<Tipo>),
    ReferenciaMutSelf(Box<Tipo>),
    NombreGenerico(String, Vec<Tipo>),
}

pub enum SpecTipo {
    Entero8,
    Entero16,
    Entero32,
    Entero64,
    Natural8,
    Natural16,
    Natural32,
    Natural64,
    Flotante32,
    Flotante64,
    Booleano,
    Caracter,
    Palabra,
    Texto,
    Vacio,
    Nombre(Seq<char>),
    Generico(Seq<char>),
    Array(Box<SpecTipo>, usize),
    ArrayGenerico(Box<SpecTipo>, Seq<char>),
    Vector(Box<SpecTipo>),
    Diccionario(Box<SpecTipo>, Box<SpecTipo>),
    Conjunto(Box<SpecTipo>),
    Resultado(Box<SpecTipo>, Box<SpecTipo>),
    Puntero(Box<SpecTipo>),
    Referencia(Box<SpecTipo>),
    ReferenciaMut(Box<SpecTipo>),
    ReferenciaConLifetime(Seq<char>, Box<SpecTipo>),
    ReferenciaMutConLifetime(Seq<char>, Box<SpecTipo>),
    ReferenciaSelf(Box<SpecTipo>),
    ReferenciaMutSelf(Box<SpecTipo>),
    NombreGenerico(Seq<char>, Seq<SpecTipo>),
}

pub open spec fn vista_tipo(t: Tipo) -> SpecTipo
    decreases t,
{
    match t {
        Tipo::Entero8 => SpecTipo::Entero8,
        Tipo::Entero16 => SpecTipo::Entero16,
        Tipo::Entero32 => SpecTipo::Entero32,
        Tipo::Entero64 => SpecTipo::Entero64,
        Tipo::Natural8 => SpecTipo::Natural8,
        Tipo::Natural16 => SpecTipo::Natural16,
        Tipo::Natural32 => SpecTipo::Natural32,
        Tipo::Natural64 => SpecTipo::Natural64,
        Tipo::Flotante32 => SpecTipo::Flotante32,
        Tipo::Flotante64 => SpecTipo::Flotante64,
        Tipo::Booleano => SpecTipo::Booleano,
        Tipo::Caracter => SpecTipo::Caracter,
        Tipo::Palabra => SpecTipo::Palabra,
        Tipo::Texto => SpecTipo::Texto,
        Tipo::Vacio => SpecTipo::Vacio,
        Tipo::Nombre(n) => SpecTipo::Nombre(n@),
        Tipo::Generico(n) => SpecTipo::Generico(n@),
        Tipo::Array(t, n) => SpecTipo::Array(Box::new(vista_tipo(*t)), n),
        Tipo::ArrayGenerico(t, n) => SpecTipo::ArrayGenerico(Box::new(vista_tipo(*t)), n@),
        Tipo::Vector(t) => SpecTipo::Vector(Box::new(vista_tipo(*t))),
        Tipo::Diccionario(k, v) => SpecTipo::Diccionario(Box::new(vista_tipo(*k)), Box::new(vista_tipo(*v))),
        Tipo::Conjunto(t) => SpecTipo::Conjunto(Box::new(vista_tipo(*t))),
        Tipo::Resultado(t, e) => SpecTipo::Resultado(Box::new(vista_tipo(*t)), Box::new(vista_tipo(*e))),
        Tipo::Puntero(t) => SpecTipo::Puntero(Box::new(vista_tipo(*t))),
        Tipo::Referencia(t) => SpecTipo::Referencia(Box::new(vista_tipo(*t))),
        Tipo::ReferenciaMut(t) => SpecTipo::ReferenciaMut(Box::new(vista_tipo(*t))),
        Tipo::ReferenciaConLifetime(l, t) => SpecTipo::ReferenciaConLifetime(l@, Box::new(vista_tipo(*t))),
        Tipo::ReferenciaMutConLifetime(l, t) => SpecTipo::ReferenciaMutConLifetime(l@, Box::new(vista_tipo(*t))),
        Tipo::ReferenciaSelf(t) => SpecTipo::ReferenciaSelf(Box::new(vista_tipo(*t))),
        Tipo::ReferenciaMutSelf(t) => SpecTipo::ReferenciaMutSelf(Box::new(vista_tipo(*t))),
        Tipo::NombreGenerico(n, args) => SpecTipo::NombreGenerico(n@, vista_tipos(args@)),
    }
}

pub open spec fn vista_tipos(s: Seq<Tipo>) -> Seq<SpecTipo>
    decreases s,
{
    if s.len() == 0 {
        Seq::empty()
    } else {
        vista_tipos(s.drop_last()).push(vista_tipo(s.last()))
    }
}

pub open spec fn vista_tipo_opt(t: Option<Tipo>) -> Option<SpecTipo> {
    match t {
        Some(t) => Some(vista_tipo(t)),
        None => None,
    }
}

impl View for Tipo {
    type V = SpecTipo;

    open spec fn view(&self) -> SpecTipo {
        vista_tipo(*self)
    }
}

pub open spec fn vista_textos(s: Seq<String>) -> Seq<Seq<char>> {
    s.map_values(|x: String| x@)
}

// ───────────────────────────── literals ─────────────────────────────

/// A literal.  A floating-point literal is kept as its IEEE-754 bit pattern.
#[derive(Debug, PartialEq)]
pub enum Literal {
    Entero(i64, Span),
    Flotante(u64, Span),
    Booleano(bool, Span),
    Caracter(char, Span),
    Palabra(String, Span),
}

pub enum SpecLiteral {
    Entero(i64, Span),
    Flotante(u64, Span),
    Booleano(bool, Span),
    Caracter(char, Span),
    Palabra(Seq<char>, Span),
}

pub open spec fn vista_literal(l: Literal) -> SpecLiteral {
    match l {
        Literal::Entero(n, s) => SpecLiteral::Entero(n, s),
        Literal::Flotante(b, s) => SpecLiteral::Flotante(b, s),
        Literal::Booleano(b, s) => SpecLiteral::Booleano(b, s),
        Literal::Caracter(c, s) => SpecLiteral::Caracter(c, s),
        Literal::Palabra(p, s) => SpecLiteral::Palabra(p@, s),
    }
}

impl View for Literal {
    type V = SpecLiteral;

    open spec fn view(&self) -> SpecLiteral {
        vista_literal(*self)
    }
}

// ───────────────────────────── expressions and statements ─────────────────────────────

/// A call `funcion<tipo_args>(argumentos)`.
#[derive(Debug, PartialEq)]
pub struct Llamada {
    pub funcion: String,
    pub tipo_args: Vec<Tipo>,
    pub argumentos: Vec<Expresion>,
    pub span: Span,
}

/// A pattern of a `coincidir` arm.
#[derive(Debug, PartialEq)]
pub enum PatronMatch {
    Comodin(Span),
    Literal(Literal),
    VarianteEnum(String, String, Option<String>, Span),
}

/// An arm `patron => cuerpo` of a `coincidir` expression.
#[derive(Debug, PartialEq)]
pub struct BrazoMatch {
    pub patron: PatronMatch,
    pub cuerpo: Expresion,
    pub span: Span,
}

#[derive(Debug, PartialEq)]
pub enum Expresion {
    Literal(Literal),
    Identificador(String, Span),
    Binaria(Box<Expresion>, OperadorBinario, Box<Expresion>, Span),
    Checked(Box<Expresion>, Span),
    Unaria(OperadorUnario, Box<Expresion>, Span),
    Llamada(Llamada),
    LiteralArray(Vec<Expresion>, Span),
    AccesoArray(Box<Expresion>, Box<Expresion>, Span),
    ArrayRelleno(Box<Expresion>, usize, Span),
    InicializacionStruct(String, Vec<(String, Expresion)>, Span),
    AccesoCampo(Box<Expresion>, String, Span),
    ConstructorEnum(String, String, Vec<Expresion>, Span),
    EsVariante(Box<Expresion>, String, String, Option<String>, Span),
    Ruta(Vec<String>, Span),
    Propagacion(Box<Expresion>, Span),
    Mover(String, Option<String>, Span),
    Copiar(Box<Expresion>, Span),
    Rango(Box<Expresion>, Box<Expresion>, bool, Span),
    Closure(Vec<(String, Option<Tipo>)>, Box<Expresion>, Span),
    Coincidir(Box<Expresion>, Vec<BrazoMatch>, Span),
    Esperar(Box<Expresion>, Span),
    Lanzar(Box<Expresion>, Span),
    DireccionDe(String, Span),
    Bloque(Bloque),
    Bloquear(Box<Expresion>, Span),
    Metodo(Box<Expresion>, String, Vec<Expresion>, Span),
}

/// A block `{ sentencias }`.
#[derive(Debug, PartialEq)]
pub struct Bloque {
    pub sentencias: Vec<Sentencia>,
    pub span: Span,
}

/// The target of an assignment.
#[derive(Debug, PartialEq)]
pub enum Lugar {
    Identificador(String),
    Campo(String, String),
}

#[derive(Debug, PartialEq)]
pub struct DeclaracionVariable {
    pub articulo: Articulo,
    pub nombre: String,
    pub tipo: Option<Tipo>,
    pub valor: Expresion,
    pub span: Span,
}

#[derive(Debug, PartialEq)]
pub struct Asignacion {
    pub lugar: Lugar,
    pub valor: Expresion,
    pub span: Span,
}

#[derive(Debug, PartialEq)]
pub struct Condicional {
    pub condicion: Expresion,
    pub bloque_entonces: Bloque,
    pub bloque_sino: Option<Bloque>,
    pub modo: ModoVerbal,
    pub span: Span,
}

#[derive(Debug, PartialEq)]
pub struct BucleMientras {
    pub condicion: Expresion,
    pub bloque: Bloque,
    pub span: Span,
}

#[derive(Debug, PartialEq)]
pub struct BuclePara {
    pub variable: String,
    pub iterable: Expresion,
    pub bloque: Bloque,
    pub span: Span,
}

/// An arm of a `seleccionar` statement: a channel operation and its body.
#[derive(Debug, PartialEq)]
pub struct RamaSeleccionar {
    pub operacion: Expresion,
    pub cuerpo: Bloque,
    pub span: Span,
}

#[derive(Debug, PartialEq)]
pub struct Seleccionar {
    pub ramas: Vec<RamaSeleccionar>,
    pub span: Span,
}

#[derive(Debug, PartialEq)]
pub enum Sentencia {
    Expresion(Expresion),
    DeclaracionVariable(DeclaracionVariable),
    Asignacion(Asignacion),
    Retornar(Option<Expresion>, Span),
    Romper(Span),
    Continuar(Span),
    Condicional(Condicional),
    BucleMientras(BucleMientras),
    BuclePara(BuclePara),
    Region { nombre: String, cuerpo: Vec<Sentencia>, span: Span },
    Seleccionar(Seleccionar),
    ConExecutor { hilos: u32, cuerpo: Vec<Sentencia>, span: Span },
}

// ── models ──

pub struct SpecLlamada {
    pub funcion: Seq<char>,
    pub tipo_args: Seq<SpecTipo>,
    pub argumentos: Seq<SpecExpresion>,
    pub span: Span,
}

pub enum SpecPatronMatch {
    Comodin(Span),
    Literal(SpecLiteral),
    VarianteEnum(Seq<char>, Seq<char>, Option<Seq<char>>, Span),
}

pub struct SpecBrazoMatch {
    pub patron: SpecPatronMatch,
    pub cuerpo: SpecExpresion,
    pub span: Span,
}

pub enum SpecExpresion {
    Literal(SpecLiteral),
    Identificador(Seq<char>, Span),
    Binaria(Box<SpecExpresion>, OperadorBinario, Box<SpecExpresion>, Span),
    Checked(Box<SpecExpresion>, Span),
    Unaria(OperadorUnario, Box<SpecExpresion>, Span),
    Llamada(SpecLlamada),
    LiteralArray(Seq<SpecExpresion>, Span),
    AccesoArray(Box<SpecExpresion>, Box<SpecExpresion>, Span),
    ArrayRelleno(Box<SpecExpresion>, usize, Span),
    InicializacionStruct(Seq<char>, Seq<(Seq<char>, SpecExpresion)>, Span),
    AccesoCampo(Box<SpecExpresion>, Seq<char>, Span),
    ConstructorEnum(Seq<char>, Seq<char>, Seq<SpecExpresion>, Span),
    EsVariante(Box<SpecExpresion>, Seq<char>, Seq<char>, Option<Seq<char>>, Span),
    Ruta(Seq<Seq<char>>, Span),
    Propagacion(Box<SpecExpresion>, Span),
    Mover(Seq<char>, Option<Seq<char>>, Span),
    Copiar(Box<SpecExpresion>, Span),
    Rango(Box<SpecExpresion>, Box<SpecExpresion>, bool, Span),
    Closure(Seq<(Seq<char>, Option<SpecTipo>)>, Box<SpecExpresion>, Span),
    Coincidir(Box<SpecExpresion>, Seq<SpecBrazoMatch>, Span),
    Esperar(Box<SpecExpresion>, Span),
    Lanzar(Box<SpecExpresion>, Span),
    DireccionDe(Seq<char>, Span),
    Bloque(SpecBloque),
    Bloquear(Box<SpecExpresion>, Span),
    Metodo(Box<SpecExpresion>, Seq<char>, Seq<SpecExpresion>, Span),
}

pub struct SpecBloque {
    pub sentencias: Seq<SpecSentencia>,
    pub span: Span,
}

pub enum SpecLugar {
    Identificador(Seq<char>),
    Campo(Seq<char>, Seq<char>),
}

pub struct SpecDeclaracionVariable {
    pub articulo: Articulo,
    pub nombre: Seq<char>,
    pub tipo: Option<SpecTipo>,
    pub valor: SpecExpresion,
    pub span: Span,
}

pub struct SpecAsignacion {
    pub lugar: SpecLugar,
    pub valor: SpecExpresion,
    pub span: Span,
}

pub struct SpecCondicional {
    pub condicion: SpecExpresion,
    pub bloque_entonces: SpecBloque,
    pub bloque_sino: Option<SpecBloque>,
    pub modo: ModoVerbal,
    pub span: Span,
}

pub struct SpecBucleMientras {
    pub condicion: SpecExpresion,
    pub bloque: SpecBloque,
    pub span: Span,
}

pub struct SpecBuclePara {
    pub variable: Seq<char>,
    pub iterable: SpecExpresion,
    pub bloque: SpecBloque,
    pub span: Span,
}

pub struct SpecRamaSeleccionar {
    pub operacion: SpecExpresion,
    pub cuerpo: SpecBloque,
    pub span: Span,
}

pub struct SpecSeleccionar {
    pub ramas: Seq<SpecRamaSeleccionar>,
    pub span: Span,
}

pub enum SpecSentencia {
    Expresion(SpecExpresion),
    DeclaracionVariable(SpecDeclaracionVariable),
    Asignacion(SpecAsignacion),
    Retornar(Option<SpecExpresion>, Span),
    Romper(Span),
    Continuar(Span),
    Condicional(SpecCondicional),
    BucleMientras(SpecBucleMientras),
    BuclePara(SpecBuclePara),
    Region { nombre: Seq<char>, cuerpo: Seq<SpecSentencia>, span: Span },
    Seleccionar(SpecSeleccionar),
    ConExecutor { hilos: u32, cuerpo: Seq<SpecSentencia>, span: Span },
}

pub open spec fn vista_patron(p: PatronMatch) -> SpecPatronMatch {
    match p {
        PatronMatch::Comodin(s) => SpecPatronMatch::Comodin(s),
        PatronMatch::Literal(l) => SpecPatronMatch::Literal(vista_literal(l)),
        PatronMatch::VarianteEnum(e, v, b, s) => SpecPatronMatch::VarianteEnum(
            e@,
            v@,
            match b {
                Some(b) => Some(b@),
                None => None,
            },
            s,
        ),
    }
}

pub open spec fn vista_texto_opt(o: Option<String>) -> Option<Seq<char>> {
    match o {
        Some(s) => Some(s@),
        None => None,
    }
}

pub open spec fn vista_parametros_closure(s: Seq<(String, Option<Tipo>)>) -> Seq<(Seq<char>, Option<SpecTipo>)> {
    s.map_values(|p: (String, Option<Tipo>)| (p.0@, vista_tipo_opt(p.1)))
}

pub open spec fn vista_expresion(e: Expresion) -> SpecExpresion
    decreases e,
{
    match e {
        Expresion::Literal(l) => SpecExpresion::Literal(vista_literal(l)),
        Expresion::Identificador(n, s) => SpecExpresion::Identificador(n@, s),
        Expresion::Binaria(a, op, b, s) => SpecExpresion::Binaria(
            Box::new(vista_expresion(*a)),
            op,
            Box::new(vista_expresion(*b)),
            s,
        ),
        Expresion::Checked(a, s) => SpecExpresion::Checked(Box::new(vista_expresion(*a)), s),
        Expresion::Unaria(op, a, s) => SpecExpresion::Unaria(op, Box::new(vista_expresion(*a)), s),
        Expresion::Llamada(l) => SpecExpresion::Llamada(SpecLlamada {
            funcion: l.funcion@,
            tipo_args: vista_tipos(l.tipo_args@),
            argumentos: vista_expresiones(l.argumentos@),
            span: l.span,
        }),
        Expresion::LiteralArray(v, s) => SpecExpresion::LiteralArray(vista_expresiones(v@), s),
        Expresion::AccesoArray(a, i, s) => SpecExpresion::AccesoArray(
            Box::new(vista_expresion(*a)),
            Box::new(vista_expresion(*i)),
            s,
        ),
        Expresion::ArrayRelleno(a, n, s) => SpecExpresion::ArrayRelleno(Box::new(vista_expresion(*a)), n, s),
        Expresion::InicializacionStruct(n, c, s) => SpecExpresion::InicializacionStruct(n@, vista_inicializaciones(c@), s),
        Expresion::AccesoCampo(a, c, s) => SpecExpresion::AccesoCampo(Box::new(vista_expresion(*a)), c@, s),
        Expresion::ConstructorEnum(e, v, a, s) => SpecExpresion::ConstructorEnum(e@, v@, vista_expresiones(a@), s),
        Expresion::EsVariante(a, e, v, b, s) => SpecExpresion::EsVariante(
            Box::new(vista_expresion(*a)),
            e@,
            v@,
            vista_texto_opt(b),
            s,
        ),
        Expresion::Ruta(p, s) => SpecExpresion::Ruta(vista_textos(p@), s),
        Expresion::Propagacion(a, s) => SpecExpresion::Propagacion(Box::new(vista_expresion(*a)), s),
        Expresion::Mover(n, d, s) => SpecExpresion::Mover(n@, vista_texto_opt(d), s),
        Expresion::Copiar(a, s) => SpecExpresion::Copiar(Box::new(vista_expresion(*a)), s),
        Expresion::Rango(a, b, inc, s) => SpecExpresion::Rango(
            Box::new(vista_expresion(*a)),
            Box::new(vista_expresion(*b)),
            inc,
            s,
        ),
        Expresion::Closure(p, c, s) => SpecExpresion::Closure(
            vista_parametros_closure(p@),
            Box::new(vista_expresion(*c)),
            s,
        ),
        Expresion::Coincidir(a, brazos, s) => SpecExpresion::Coincidir(
            Box::new(vista_expresion(*a)),
            vista_brazos(brazos@),
            s,
        ),
        Expresion::Esperar(a, s) => SpecExpresion::Esperar(Box::new(vista_expresion(*a)), s),
        Expresion::Lanzar(a, s) => SpecExpresion::Lanzar(Box::new(vista_expresion(*a)), s),
        Expresion::DireccionDe(n, s) => SpecExpresion::DireccionDe(n@, s),
        Expresion::Bloque(b) => SpecExpresion::Bloque(SpecBloque {
            sentencias: vista_sentencias(b.sentencias@),
            span: b.span,
        }),
        Expresion::Bloquear(a, s) => SpecExpresion::Bloquear(Box::new(vista_expresion(*a)), s),
        Expresion::Metodo(a, n, args, s) => SpecExpresion::Metodo(
            Box::new(vista_expresion(*a)),
            n@,
            vista_expresiones(args@),
            s,
        ),
    }
}

pub open spec fn vista_expresiones(s: Seq<Expresion>) -> Seq<SpecExpresion>
    decreases s,
{
    if s.len() == 0 {
        Seq::empty()
    } else {
        vista_expresiones(s.drop_last()).push(vista_expresion(s.last()))
    }
}

pub open spec fn vista_inicializaciones(s: Seq<(String, Expresion)>) -> Seq<(Seq<char>, SpecExpresion)>
    decreases s,
{
    if s.len() == 0 {
        Seq::empty()
    } else {
        vista_inicializaciones(s.drop_last()).push((s.last().0@, vista_expresion(s.last().1)))
    }
}

pub open spec fn vista_brazos(s: Seq<BrazoMatch>) -> Seq<SpecBrazoMatch>
    decreases s,
{
    if s.len() == 0 {
        Seq::empty()
    } else {
        vista_brazos(s.drop_last()).push(
            SpecBrazoMatch {
                patron: vista_patron(s.last().patron),
                cuerpo: vista_expresion(s.last().cuerpo),
                span: s.last().span,
            },
        )
    }
}

pub open spec fn vista_bloque(b: Bloque) -> SpecBloque
    decreases b,
{
    SpecBloque { sentencias: vista_sentencias(b.sentencias@), span: b.span }
}

pub open spec fn vista_sentencia(st: Sentencia) -> SpecSentencia
    decreases st,
{
    match st {
        Sentencia::Expresion(e) => SpecSentencia::Expresion(vista_expresion(e)),
        Sentencia::DeclaracionVariable(d) => SpecSentencia::DeclaracionVariable(
            SpecDeclaracionVariable {
                articulo: d.articulo,
                nombre: d.nombre@,
                tipo: vista_tipo_opt(d.tipo),
                valor: vista_expresion(d.valor),
                span: d.span,
            },
        ),
        Sentencia::Asignacion(a) => SpecSentencia::Asignacion(
            SpecAsignacion {
                lugar: match a.lugar {
                    Lugar::Identificador(n) => SpecLugar::Identificador(n@),
                    Lugar::Campo(b, c) => SpecLugar::Campo(b@, c@),
                },
                valor: vista_expresion(a.valor),
                span: a.span,
            },
        ),
        Sentencia::Retornar(e, s) => SpecSentencia::Retornar(
            match e {
                Some(e) => Some(vista_expresion(e)),
                None => None,
            },
            s,
        ),
        Sentencia::Romper(s) => SpecSentencia::Romper(s),
        Sentencia::Continuar(s) => SpecSentencia::Continuar(s),
        Sentencia::Condicional(c) => SpecSentencia::Condicional(
            SpecCondicional {
                condicion: vista_expresion(c.condicion),
                bloque_entonces: SpecBloque {
                    sentencias: vista_sentencias(c.bloque_entonces.sentencias@),
                    span: c.bloque_entonces.span,
                },
                bloque_sino: match c.bloque_sino {
                    Some(b) => Some(
                        SpecBloque { sentencias: vista_sentencias(b.sentencias@), span: b.span },
                    ),
                    None => None,
                },
                modo: c.modo,
                span: c.span,
            },
        ),
        Sentencia::BucleMientras(b) => SpecSentencia::BucleMientras(
            SpecBucleMientras {
                condicion: vista_expresion(b.condicion),
                bloque: SpecBloque {
                    sentencias: vista_sentencias(b.bloque.sentencias@),
                    span: b.bloque.span,
                },
                span: b.span,
            },
        ),
        Sentencia::BuclePara(b) => SpecSentencia::BuclePara(
            SpecBuclePara {
                variable: b.variable@,
                iterable: vista_expresion(b.iterable),
                bloque: SpecBloque {
                    sentencias: vista_sentencias(b.bloque.sentencias@),
                    span: b.bloque.span,
                },
                span: b.span,
            },
        ),
        Sentencia::Region { nombre, cuerpo, span } => SpecSentencia::Region {
            nombre: nombre@,
            cuerpo: vista_sentencias(cuerpo@),
            span,
        },
        Sentencia::Seleccionar(s) => SpecSentencia::Seleccionar(
            SpecSeleccionar { ramas: vista_ramas(s.ramas@), span: s.span },
        ),
        Sentencia::ConExecutor { hilos, cuerpo, span } => SpecSentencia::ConExecutor {
            hilos,
            cuerpo: vista_sentencias(cuerpo@),
            span,
        },
    }
}

pub open spec fn vista_sentencias(s: Seq<Sentencia>) -> Seq<SpecSentencia>
    decreases s,
{
    if s.len() == 0 {
        Seq::empty()
    } else {
        vista_sentencias(s.drop_last()).push(vista_sentencia(s.last()))
    }
}

pub open spec fn vista_ramas(s: Seq<RamaSeleccionar>) -> Seq<SpecRamaSeleccionar>
    decreases s,
{
    if s.len() == 0 {
        Seq::empty()
    } else {
        vista_ramas(s.drop_last()).push(
            SpecRamaSeleccionar {
                operacion: vista_expresion(s.last().operacion),
                cuerpo: SpecBloque {
                    sentencias: vista_sentencias(s.last().cuerpo.sentencias@),
                    span: s.last().cuerpo.span,
                },
                span: s.last().span,
            },
        )
    }
}

impl View for Expresion {
    type V = SpecExpresion;

    open spec fn view(&self) -> SpecExpresion {
        vista_expresion(*self)
    }
}

impl View for Sentencia {
    type V = SpecSentencia;

    open spec fn view(&self) -> SpecSentencia {
        vista_sentencia(*self)
    }
}

impl View for Bloque {
    type V = SpecBloque;

    open spec fn view(&self) -> SpecBloque {
        SpecBloque { sentencias: vista_sentencias(self.sentencias@), span: self.span }
    }
}

pub open spec fn vista_llamada(l: Llamada) -> SpecLlamada {
    SpecLlamada {
        funcion: l.funcion@,
        tipo_args: vista_tipos(l.tipo_args@),
        argumentos: vista_expresiones(l.argumentos@),
        span: l.span,
    }
}

impl View for Llamada {
    type V = SpecLlamada;

    open spec fn view(&self) -> SpecLlamada {
        vista_llamada(*self)
    }
}

/// The position of a literal.
pub open spec fn span_de_literal(l: SpecLiteral) -> Span {
    match l {
        SpecLiteral::Entero(_, s) => s,
        SpecLiteral::Flotante(_, s) => s,
        SpecLiteral::Booleano(_, s) => s,
        SpecLiteral::Caracter(_, s) => s,
        SpecLiteral::Palabra(_, s) => s,
    }
}

/// The position of an expression.
pub open spec fn span_de(e: SpecExpresion) -> Span {
    match e {
        SpecExpresion::Literal(l) => span_de_literal(l),
        SpecExpresion::Identificador(_, s) => s,
        SpecExpresion::Binaria(_, _, _, s) => s,
        SpecExpresion::Checked(_, s) => s,
        SpecExpresion::Unaria(_, _, s) => s,
        SpecExpresion::Llamada(l) => l.span,
        SpecExpresion::LiteralArray(_, s) => s,
        SpecExpresion::AccesoArray(_, _, s) => s,
        SpecExpresion::ArrayRelleno(_, _, s) => s,
        SpecExpresion::InicializacionStruct(_, _, s) => s,
        SpecExpresion::AccesoCampo(_, _, s) => s,
        SpecExpresion::ConstructorEnum(_, _, _, s) => s,
        SpecExpresion::EsVariante(_, _, _, _, s) => s,
        SpecExpresion::Ruta(_, s) => s,
        SpecExpresion::Propagacion(_, s) => s,
        SpecExpresion::Mover(_, _, s) => s,
        SpecExpresion::Copiar(_, s) => s,
        SpecExpresion::Rango(_, _, _, s) => s,
        SpecExpresion::Closure(_, _, s) => s,
        SpecExpresion::Coincidir(_, _, s) => s,
        SpecExpresion::Esperar(_, s) => s,
        SpecExpresion::Lanzar(_, s) => s,
        SpecExpresion::DireccionDe(_, s) => s,
        SpecExpresion::Bloque(b) => b.span,
        SpecExpresion::Bloquear(_, s) => s,
        SpecExpresion::Metodo(_, _, _, s) => s,
    }
}

impl Literal {
    /// The position of the literal.
    pub fn span(&self) -> (r: Span)
        ensures
            r == span_de_literal(self@),
    {
        match self {
            Literal::Entero(_, s) => *s,
            Literal::Flotante(_, s) => *s,
            Literal::Booleano(_, s) => *s,
            Literal::Caracter(_, s) => *s,
            Literal::Palabra(_, s) => *s,
        }
    }
}

impl Expresion {
    /// The position of the expression.
    pub fn span(&self) -> (r: Span)
        ensures
            r == span_de(self@),
    {
        match self {
            Expresion::Literal(l) => l.span(),
            Expresion::Identificador(_, s) => *s,
            Expresion::Binaria(_, _, _, s) => *s,
            Expresion::Checked(_, s) => *s,
            Expresion::Unaria(_, _, s) => *s,
            Expresion::Llamada(l) => l.span,
            Expresion::LiteralArray(_, s) => *s,
            Expresion::AccesoArray(_, _, s) => *s,
            Expresion::ArrayRelleno(_, _, s) => *s,
            Expresion::InicializacionStruct(_, _, s) => *s,
            Expresion::AccesoCampo(_, _, s) => *s,
            Expresion::ConstructorEnum(_, _, _, s) => *s,
            Expresion::EsVariante(_, _, _, _, s) => *s,
            Expresion::Ruta(_, s) => *s,
            Expresion::Propagacion(_, s) => *s,
            Expresion::Mover(_, _, s) => *s,
            Expresion::Copiar(_, s) => *s,
            Expresion::Rango(_, _, _, s) => *s,
            Expresion::Closure(_, _, s) => *s,
            Expresion::Coincidir(_, _, s) => *s,
            Expresion::Esperar(_, s) => *s,
            Expresion::Lanzar(_, s) => *s,
            Expresion::DireccionDe(_, s) => *s,
            Expresion::Bloque(b) => b.span,
            Expresion::Bloquear(_, s) => *s,
            Expresion::Metodo(_, _, _, s) => *s,
        }
    }
}

// ───────────────────────────── declarations ─────────────────────────────

/// A parameter `articulo nombre: tipo` of a function.
#[derive(Debug, PartialEq)]
pub struct Parametro {
    pub articulo: Articulo,
    pub nombre: String,
    pub tipo: Tipo,
}

/// A generic parameter: a type parameter (`tipo` is `None`) or a const parameter.
#[derive(Debug, PartialEq)]
pub struct ParametroGenerico {
    pub nombre: String,
    pub tipo: Option<Tipo>,
}

#[derive(Debug, PartialEq)]
pub struct FuncionDecl {
    pub nombre: String,
    pub parametros_genericos: Vec<ParametroGenerico>,
    pub parametros: Vec<Parametro>,
    pub retorno: Option<Tipo>,
    pub cuerpo: Bloque,
    pub es_insegura: bool,
    pub es_vectorizable: bool,
    pub nivel_verificacion: u8,
    pub efecto: Option<String>,
    pub visibilidad: Visibilidad,
    pub es_futuro: bool,
    pub span: Span,
}

/// A field `articulo nombre: tipo` of a struct.
#[derive(Debug, PartialEq)]
pub struct Campo {
    pub articulo: Articulo,
    pub nombre: String,
    pub tipo: Tipo,
}

#[derive(Debug, PartialEq)]
pub struct EstructuraDecl {
    pub nombre: String,
    pub campos: Vec<Campo>,
    pub span: Span,
}

#[derive(Debug, PartialEq)]
pub struct VarianteDecl {
    pub nombre: String,
    pub datos: Option<Tipo>,
}

#[derive(Debug, PartialEq)]
pub struct EnumeracionDecl {
    pub nombre: String,
    pub variantes: Vec<VarianteDecl>,
    pub span: Span,
}

#[derive(Debug, PartialEq)]
pub enum Declaracion {
    Funcion(FuncionDecl),
    Estructural(EstructuraDecl),
    Enumeracion(EnumeracionDecl),
}

/// A whole program: its top-level declarations, in order.
#[derive(Debug, PartialEq)]
pub struct Programa {
    pub declaraciones: Vec<Declaracion>,
}

pub struct SpecParametro {
    pub articulo: Articulo,
    pub nombre: Seq<char>,
    pub tipo: SpecTipo,
}

pub struct SpecParametroGenerico {
    pub nombre: Seq<char>,
    pub tipo: Option<SpecTipo>,
}

pub struct SpecFuncionDecl {
    pub nombre: Seq<char>,
    pub parametros_genericos: Seq<SpecParametroGenerico>,
    pub parametros: Seq<SpecParametro>,
    pub retorno: Option<SpecTipo>,
    pub cuerpo: SpecBloque,
    pub es_insegura: bool,
    pub es_vectorizable: bool,
    pub nivel_verificacion: u8,
    pub efecto: Option<Seq<char>>,
    pub visibilidad: Visibilidad,
    pub es_futuro: bool,
    pub span: Span,
}

pub struct SpecCampo {
    pub articulo: Articulo,
    pub nombre: Seq<char>,
    pub tipo: SpecTipo,
}

pub struct SpecEstructuraDecl {
    pub nombre: Seq<char>,
    pub campos: Seq<SpecCampo>,
    pub span: Span,
}

pub struct SpecVarianteDecl {
    pub nombre: Seq<char>,
    pub datos: Option<SpecTipo>,
}

pub struct SpecEnumeracionDecl {
    pub nombre: Seq<char>,
    pub variantes: Seq<SpecVarianteDecl>,
    pub span: Span,
}

pub enum SpecDeclaracion {
    Funcion(SpecFuncionDecl),
    Estructural(SpecEstructuraDecl),
    Enumeracion(SpecEnumeracionDecl),
}

pub struct SpecPrograma {
    pub declaraciones: Seq<SpecDeclaracion>,
}

impl View for Parametro {
    type V = SpecParametro;

    open spec fn view(&self) -> SpecParametro {
        SpecParametro { articulo: self.articulo, nombre: self.nombre@, tipo: self.tipo@ }
    }
}

impl View for ParametroGenerico {
    type V = SpecParametroGenerico;

    open spec fn view(&self) -> SpecParametroGenerico {
        SpecParametroGenerico { nombre: self.nombre@, tipo: vista_tipo_opt(self.tipo) }
    }
}

impl View for Campo {
    type V = SpecCampo;

    open spec fn view(&self) -> SpecCampo {
        SpecCampo { articulo: self.articulo, nombre: self.nombre@, tipo: self.tipo@ }
    }
}

impl View for VarianteDecl {
    type V = SpecVarianteDecl;

    open spec fn view(&self) -> SpecVarianteDecl {
        SpecVarianteDecl { nombre: self.nombre@, datos: vista_tipo_opt(self.datos) }
    }
}

impl View for FuncionDecl {
    type V = SpecFuncionDecl;

    open spec fn view(&self) -> SpecFuncionDecl {
        SpecFuncionDecl {
            nombre: self.nombre@,
            parametros_genericos: self.parametros_genericos@.map_values(|g: ParametroGenerico| g@),
            parametros: self.parametros@.map_values(|p: Parametro| p@),
            retorno: vista_tipo_opt(self.retorno),
            cuerpo: self.cuerpo@,
            es_insegura: self.es_insegura,
            es_vectorizable: self.es_vectorizable,
            nivel_verificacion: self.nivel_verificacion,
            efecto: vista_texto_opt(self.efecto),
            visibilidad: self.visibilidad,
            es_futuro: self.es_futuro,
            span: self.span,
        }
    }
}

impl View for EstructuraDecl {
    type V = SpecEstructuraDecl;

    open spec fn view(&self) -> SpecEstructuraDecl {
        SpecEstructuraDecl {
            nombre: self.nombre@,
            campos: self.campos@.map_values(|c: Campo| c@),
            span: self.span,
        }
    }
}

impl View for EnumeracionDecl {
    type V = SpecEnumeracionDecl;

    open spec fn view(&self) -> SpecEnumeracionDecl {
        SpecEnumeracionDecl {
            nombre: self.nombre@,
            variantes: self.variantes@.map_values(|v: VarianteDecl| v@),
            span: self.span,
        }
    }
}

impl View for Declaracion {
    type V = SpecDeclaracion;

    open spec fn view(&self) -> SpecDeclaracion {
        match self {
            Declaracion::Funcion(f) => SpecDeclaracion::Funcion(f@),
            Declaracion::Estructural(e) => SpecDeclaracion::Estructural(e@),
            Declaracion::Enumeracion(e) => SpecDeclaracion::Enumeracion(e@),
        }
    }
}

impl View for Programa {
    type V = SpecPrograma;

    open spec fn view(&self) -> SpecPrograma {
        SpecPrograma { declaraciones: self.declaraciones@.map_values(|d: Declaracion| d@) }
    }
}

} // verus!
