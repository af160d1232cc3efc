//! The code generator's registries of declared enums and structs, and the
//! analyses on the syntax tree that code generation relies on.

use vstd::prelude::*;
use crate::ast::{SpecTipo, Tipo};
use crate::texto::mismo_texto;

pub mod desbordamiento;
pub mod diccionario;
pub mod enums;
pub mod errores;
pub mod funciones;
pub mod expresiones;
pub mod generics;
pub mod imprimir;
pub mod instanciacion;
pub mod reescritura;

verus! {

/// The tag assigned to each variant of a declared enum.
pub struct EnumLayout {
    pub nombre: String,
    pub variantes: Vec<(String, u32)>,
    /// The size in bytes of a value of the enum.
    pub tamano: u32,
    /// The offset in bytes of a variant's data, after the tag.
    pub datos_offset: u32,
}

/// The type of each field of a declared struct.
pub struct StructLayout {
    pub nombre: String,
    pub tipos: Vec<(String, Tipo)>,
}

/// The kind of an error that stops code generation.
#[derive(Clone, Copy, Debug, PartialEq, Eq, Structural)]
pub enum CategoriaError {
    /// A type or generic parameter that cannot be worked out.
    Tipo,
    /// A call of a function that is neither declared nor foreign.
    FFI,
    /// An inconsistency of the compiler itself.
    Interno,
}

/// An error that stops code generation: its kind, its code and its message.
#[derive(Debug, PartialEq)]
pub struct ErrorCompilacion {
    pub categoria: CategoriaError,
    pub codigo: u32,
    pub mensaje: String,
}

/// The code generator's view of the program's declared enums and structs.
pub struct Codegen {
    pub enums: Vec<EnumLayout>,
    pub structs: Vec<StructLayout>,
}

/// The model of an association list: each key by its characters, each value by its view.
pub open spec fn vista_pares<X: View>(s: Seq<(String, X)>) -> Seq<(Seq<char>, X::V)> {
    s.map_values(|p: (String, X)| (p.0@, p.1@))
}

/// The value that an association list gives a key: that of its first entry with that key.
pub open spec fn buscar<X>(s: Seq<(Seq<char>, X)>, k: Seq<char>) -> Option<X>
    decreases s.len(),
{
    if s.len() == 0 {
        None
    } else if s[0].0 == k {
        Some(s[0].1)
    } else {
        buscar(s.drop_first(), k)
    }
}

/// The index of the first entry whose key is `k`, if any.
pub fn posicion<X: View>(v: &Vec<(String, X)>, k: &str) -> (r: Option<usize>)
    ensures
        match r {
            Some(i) => i < v@.len() && v@[i as int].0@ == k@ && buscar(vista_pares(v@), k@) == Some(
                v@[i as int].1@,
            ),
            None => buscar(vista_pares(v@), k@) is None,
        },
{
    let ghost s = vista_pares(v@);
    let mut i: usize = 0;
    assert(s.skip(0) =~= s);
    while i < v.len()
        invariant
            i <= v.len(),
            s == vista_pares(v@),
            buscar(s, k@) == buscar(s.skip(i as int), k@),
        decreases v.len() - i,
    {
        proof {
            assert(s.skip(i as int)[0] == s[i as int]);
            assert(s.skip(i as int).drop_first() =~= s.skip(i + 1));
        }
        if mismo_texto(v[i].0.as_str(), k) {
            return Some(i);
        }
        i = i + 1;
    }
    proof {
        assert(s.skip(i as int).len() == 0);
    }
    None
}

} // verus!
