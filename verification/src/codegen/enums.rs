//! How a value of an enum is built: packed into one 64-bit word for small
//! enums (tag in the low half, data in the high half), or laid out in memory.

use vstd::prelude::*;
use vstd::string::StringExecFns;
use crate::codegen::{buscar, vista_pares, CategoriaError, Codegen, EnumLayout, ErrorCompilacion};
use crate::texto::mismo_texto;

verus! {

/// How a value of an enum variant is built.
#[derive(Debug, PartialEq, Eq)]
pub enum PlanEnum {
    /// A small enum (at most 8 bytes): `tag | (dato << desplazamiento)` in one word.
    Empaquetado { tag: u32, desplazamiento: u64 },
    /// A larger enum: a stack slot of `tamano` bytes, the tag at offset 0 and
    /// the arguments, 4 bytes apart, from `datos_offset` on.
    EnMemoria { tamano: u32, tag: u32, datos_offset: u32 },
}

/// The index of the first layout of an enum named `n` at or after `desde`.
pub open spec fn primer_enum(s: Seq<EnumLayout>, n: Seq<char>, desde: int) -> Option<int>
    decreases s.len() - desde,
{
    if desde < 0 || desde >= s.len() {
        None
    } else if s[desde].nombre@ == n {
        Some(desde)
    } else {
        primer_enum(s, n, desde + 1)
    }
}

/// The error code of a constructor of an enum that code generation does not know.
pub const CODIGO_ENUM_NO_REGISTRADO: u32 = 50;

/// How `enum_nombre::variante(...)` is built from the registered layouts, or
/// the error (code, message) when the enum is not registered; an unknown
/// variant takes the tag 0.
pub open spec fn plan_de_constructor(
    enums: Seq<EnumLayout>,
    enum_nombre: Seq<char>,
    variante: Seq<char>,
) -> Result<PlanEnum, (u32, Seq<char>)> {
    match primer_enum(enums, enum_nombre, 0) {
        None => Err((CODIGO_ENUM_NO_REGISTRADO, "Enum '"@ + enum_nombre + "' no registrado en codegen"@)),
        Some(i) => {
            let l = enums[i];
            let tag = match buscar(vista_pares(l.variantes@), variante) {
                Some(t) => t,
                None => 0,
            };
            if l.tamano <= 8 {
                Ok(PlanEnum::Empaquetado { tag, desplazamiento: (l.datos_offset * 8) as u64 })
            } else {
                Ok(PlanEnum::EnMemoria { tamano: l.tamano, tag, datos_offset: l.datos_offset })
            }
        },
    }
}

/// The word of a small enum value: the tag in the low bits, the data shifted
/// by `desplazamiento` bits.
pub open spec fn valor_empaquetado(tag: u32, dato: u32, desplazamiento: u64) -> u64 {
    (tag as u64) | ((dato as u64) << desplazamiento)
}

/// With the data 4 bytes after the tag, the packed word gives back both: its
/// low 32 bits are the tag and its high 32 bits the data. (`a + b fuese`
/// packs its result the same way: tag 0 with the result, tag 1 with data 1.)
pub proof fn ley_empaquetado(tag: u32, dato: u32)
    ensures
        (valor_empaquetado(tag, dato, 32) & 0xffff_ffff) as u32 == tag,
        (valor_empaquetado(tag, dato, 32) >> 32u64) as u32 == dato,
{
    assert(((tag as u64) | ((dato as u64) << 32u64)) & 0xffff_ffff == tag as u64) by (bit_vector);
    assert(((((tag as u64) | ((dato as u64) << 32u64)) >> 32u64) as u32) == dato) by (bit_vector);
}

impl Codegen {
    /// Decides how the constructor `enum_nombre::variante(...)` builds its value.
    pub fn plan_constructor_enum(&self, enum_nombre: &str, variante: &str) -> (r: Result<PlanEnum, ErrorCompilacion>)
        ensures
            match r {
                Ok(p) => plan_de_constructor(self.enums@, enum_nombre@, variante@) == Ok::<
                    PlanEnum,
                    (u32, Seq<char>),
                >(p),
                Err(e) => e.categoria == CategoriaError::Interno && plan_de_constructor(
                    self.enums@,
                    enum_nombre@,
                    variante@,
                ) == Err::<PlanEnum, (u32, Seq<char>)>((e.codigo, e.mensaje@)),
            },
    {
        let mut i: usize = 0;
        while i < self.enums.len()
            invariant
                i <= self.enums.len(),
                primer_enum(self.enums@, enum_nombre@, 0) == primer_enum(self.enums@, enum_nombre@, i as int),
            decreases self.enums.len() - i,
        {
            if mismo_texto(self.enums[i].nombre.as_str(), enum_nombre) {
                let l = &self.enums[i];
                let tag = match crate::codegen::posicion(&l.variantes, variante) {
                    Some(j) => l.variantes[j].1,
                    None => 0,
                };
                if l.tamano <= 8 {
                    return Ok(PlanEnum::Empaquetado { tag, desplazamiento: (l.datos_offset as u64) * 8 });
                } else {
                    return Ok(PlanEnum::EnMemoria { tamano: l.tamano, tag, datos_offset: l.datos_offset });
                }
            }
            i = i + 1;
        }
        let mut m = String::from_str("Enum '");
        m.append(enum_nombre);
        m.append("' no registrado en codegen");
        Err(ErrorCompilacion { categoria: CategoriaError::Interno, codigo: CODIGO_ENUM_NO_REGISTRADO, mensaje: m })
    }
}

} // verus!
