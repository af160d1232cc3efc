//! Arithmetic that reports overflow (`a + b fuese`): which overflow test code
//! generation emits for each operator and signedness, and why each test is
//! exact.

use vstd::prelude::*;
use vstd::string::StringExecFns;
use crate::ast::{Expresion, OperadorBinario, SpecExpresion, SpecTipo, Tipo};
use crate::codegen::{CategoriaError, ErrorCompilacion};

verus! {

/// The overflow test emitted for an arithmetic operation that reports overflow.
#[derive(Clone, Copy, Debug, PartialEq, Eq, Structural)]
pub enum Comprobacion {
    /// Signed `a + b`: `((a ^ r) & (b ^ r))` is negative ([`ley_suma_con_signo`]).
    SumaConSigno,
    /// Signed `a - b`: `((a ^ b) & (a ^ r))` is negative ([`ley_resta_con_signo`]).
    RestaConSigno,
    /// Signed `a * b`: the high half differs from the sign of `r` ([`ley_producto_con_signo`]).
    ProductoConSigno,
    /// Unsigned `a + b`: `r < a` ([`ley_suma_sin_signo`]).
    SumaSinSigno,
    /// Unsigned `a - b`: `r > a` ([`ley_resta_sin_signo`]).
    RestaSinSigno,
    /// Unsigned `a * b`: the high half is not zero ([`ley_producto_sin_signo`]).
    ProductoSinSigno,
}

/// The signed integer types, whose operations overflow past their sign.
pub open spec fn es_con_signo(t: SpecTipo) -> bool {
    t is Entero8 || t is Entero16 || t is Entero32 || t is Entero64
}

/// The name of an operator as error messages write it.
pub open spec fn nombre_operador(op: OperadorBinario) -> Seq<char> {
    match op {
        OperadorBinario::Suma => "Suma"@,
        OperadorBinario::Resta => "Resta"@,
        OperadorBinario::Multiplicacion => "Multiplicacion"@,
        OperadorBinario::Division => "Division"@,
        OperadorBinario::Modulo => "Modulo"@,
        OperadorBinario::Igual => "Igual"@,
        OperadorBinario::Distinto => "Distinto"@,
        OperadorBinario::Menor => "Menor"@,
        OperadorBinario::MenorIgual => "MenorIgual"@,
        OperadorBinario::Mayor => "Mayor"@,
        OperadorBinario::MayorIgual => "MayorIgual"@,
        OperadorBinario::Y => "Y"@,
        OperadorBinario::O => "O"@,
    }
}

/// The name of an operator as error messages write it.
pub fn nombre_de_operador(op: OperadorBinario) -> (r: String)
    ensures
        r@ == nombre_operador(op),
{
    match op {
        OperadorBinario::Suma => String::from_str("Suma"),
        OperadorBinario::Resta => String::from_str("Resta"),
        OperadorBinario::Multiplicacion => String::from_str("Multiplicacion"),
        OperadorBinario::Division => String::from_str("Division"),
        OperadorBinario::Modulo => String::from_str("Modulo"),
        OperadorBinario::Igual => String::from_str("Igual"),
        OperadorBinario::Distinto => String::from_str("Distinto"),
        OperadorBinario::Menor => String::from_str("Menor"),
        OperadorBinario::MenorIgual => String::from_str("MenorIgual"),
        OperadorBinario::Mayor => String::from_str("Mayor"),
        OperadorBinario::MayorIgual => String::from_str("MayorIgual"),
        OperadorBinario::Y => String::from_str("Y"),
        OperadorBinario::O => String::from_str("O"),
    }
}

/// The error code of a `fuese` that does not stand on an arithmetic operation.
pub const CODIGO_CHECKED_INVALIDO: u32 = 1;

/// The test that `interior fuese` emits, when the left operand of `interior`
/// has type `t_izq`; or the error (code, message) when `interior` is not an
/// addition, subtraction or product.
pub open spec fn comprobacion_de(interior: SpecExpresion, t_izq: SpecTipo) -> Result<Comprobacion, (u32, Seq<char>)> {
    match interior {
        SpecExpresion::Binaria(_, op, _, _) => match op {
            OperadorBinario::Suma => Ok(
                if es_con_signo(t_izq) {
                    Comprobacion::SumaConSigno
                } else {
                    Comprobacion::SumaSinSigno
                },
            ),
            OperadorBinario::Resta => Ok(
                if es_con_signo(t_izq) {
                    Comprobacion::RestaConSigno
                } else {
                    Comprobacion::RestaSinSigno
                },
            ),
            OperadorBinario::Multiplicacion => Ok(
                if es_con_signo(t_izq) {
                    Comprobacion::ProductoConSigno
                } else {
                    Comprobacion::ProductoSinSigno
                },
            ),
            _ => Err((CODIGO_CHECKED_INVALIDO, "Checked con operación no aritmética: "@ + nombre_operador(op))),
        },
        _ => Err((CODIGO_CHECKED_INVALIDO, "Checked sin operación binaria interna"@)),
    }
}

/// Decides the overflow test of `interior fuese`, whose left operand has type
/// `tipo_izq` (aliases resolved).
pub fn comprobacion_checked(interior: &Expresion, tipo_izq: &Tipo) -> (r: Result<Comprobacion, ErrorCompilacion>)
    ensures
        match r {
            Ok(c) => comprobacion_de(interior@, tipo_izq@) == Ok::<Comprobacion, (u32, Seq<char>)>(c),
            Err(e) => e.categoria == CategoriaError::Interno && comprobacion_de(interior@, tipo_izq@) == Err::<
                Comprobacion,
                (u32, Seq<char>),
            >((e.codigo, e.mensaje@)),
        },
{
    let con_signo = match tipo_izq {
        Tipo::Entero8 | Tipo::Entero16 | Tipo::Entero32 | Tipo::Entero64 => true,
        _ => false,
    };
    match interior {
        Expresion::Binaria(_, op, _, _) => match op {
            OperadorBinario::Suma => Ok(
                if con_signo {
                    Comprobacion::SumaConSigno
                } else {
                    Comprobacion::SumaSinSigno
                },
            ),
            OperadorBinario::Resta => Ok(
                if con_signo {
                    Comprobacion::RestaConSigno
                } else {
                    Comprobacion::RestaSinSigno
                },
            ),
            OperadorBinario::Multiplicacion => Ok(
                if con_signo {
                    Comprobacion::ProductoConSigno
                } else {
                    Comprobacion::ProductoSinSigno
                },
            ),
            _ => {
                let mut m = String::from_str("Checked con operación no aritmética: ");
                m.append(nombre_de_operador(*op).as_str());
                Err(ErrorCompilacion { categoria: CategoriaError::Interno, codigo: CODIGO_CHECKED_INVALIDO, mensaje: m })
            },
        },
        _ => Err(
            ErrorCompilacion {
                categoria: CategoriaError::Interno,
                codigo: CODIGO_CHECKED_INVALIDO,
                mensaje: String::from_str("Checked sin operación binaria interna"),
            },
        ),
    }
}

/// A 32-bit signed sum overflows exactly when both operands differ in sign
/// from the wrapped result: `((a ^ r) & (b ^ r)) >> 31 != 0`.
pub proof fn ley_suma_con_signo(a: i32, b: i32)
    by (bit_vector)
    ensures
        ((((a ^ ((a + b) as i32)) & (b ^ ((a + b) as i32))) >> 31u32) != 0) == (a + b > 0x7fff_ffff || a + b
            < -0x8000_0000),
{
}

/// A 32-bit signed difference overflows exactly when the operands differ in
/// sign and the wrapped result differs in sign from `a`:
/// `((a ^ b) & (a ^ r)) >> 31 != 0`.
pub proof fn ley_resta_con_signo(a: i32, b: i32)
    by (bit_vector)
    ensures
        ((((a ^ b) & (a ^ ((a - b) as i32))) >> 31u32) != 0) == (a - b > 0x7fff_ffff || a - b < -0x8000_0000),
{
}

/// A 32-bit signed product overflows exactly when the high half of the full
/// product is not the sign extension of the wrapped result.
pub proof fn ley_producto_con_signo(a: i32, b: i32)
    by (bit_vector)
    ensures
        (((((a as i64) * (b as i64)) as i64) >> 32u64) as i32 != (((a as i64) * (b as i64)) as i32) >> 31u32) == (
        (a as i64) * (b as i64) > 0x7fff_ffff || (a as i64) * (b as i64) < -0x8000_0000),
{
}

/// A 32-bit unsigned sum overflows exactly when the wrapped result is below `a`.
pub proof fn ley_suma_sin_signo(a: u32, b: u32)
    by (bit_vector)
    ensures
        (((a + b) as u32) < a) == (a + b > 0xffff_ffff),
{
}

/// A 32-bit unsigned difference overflows exactly when the wrapped result is above `a`.
pub proof fn ley_resta_sin_signo(a: u32, b: u32)
    by (bit_vector)
    ensures
        (((a - b) as u32) > a) == (a < b),
{
}

/// A 32-bit unsigned product overflows exactly when the high half of the full
/// product is not zero.
pub proof fn ley_producto_sin_signo(a: u32, b: u32)
    by (bit_vector)
    ensures
        (((((a as u64) * (b as u64)) as u64) >> 32u64) != 0) == ((a as u64) * (b as u64) > 0xffff_ffff),
{
}

/// The signed sum test at 8 bits is exact (see [`ley_suma_con_signo`]).
pub proof fn ley_suma_con_signo_8(a: i8, b: i8)
    by (bit_vector)
    ensures
        ((((a ^ ((a + b) as i8)) & (b ^ ((a + b) as i8))) >> 7u32) != 0) == (a + b > 0x7f || a + b < -0x80),
{
}

/// The signed difference test at 8 bits is exact (see [`ley_resta_con_signo`]).
pub proof fn ley_resta_con_signo_8(a: i8, b: i8)
    by (bit_vector)
    ensures
        ((((a ^ b) & (a ^ ((a - b) as i8))) >> 7u32) != 0) == (a - b > 0x7f || a - b < -0x80),
{
}

/// The signed product test at 8 bits is exact (see [`ley_producto_con_signo`]).
pub proof fn ley_producto_con_signo_8(a: i8, b: i8)
    by (bit_vector)
    ensures
        (((((a as i16) * (b as i16)) as i16) >> 8u32) as i8 != (((a as i16) * (b as i16)) as i8) >> 7u32) == (
        (a as i16) * (b as i16) > 0x7f || (a as i16) * (b as i16) < -0x80),
{
}

/// The unsigned sum test at 8 bits is exact (see [`ley_suma_sin_signo`]).
pub proof fn ley_suma_sin_signo_8(a: u8, b: u8)
    by (bit_vector)
    ensures
        (((a + b) as u8) < a) == (a + b > 0xff),
{
}

/// The unsigned difference test at 8 bits is exact (see [`ley_resta_sin_signo`]).
pub proof fn ley_resta_sin_signo_8(a: u8, b: u8)
    by (bit_vector)
    ensures
        (((a - b) as u8) > a) == (a < b),
{
}

/// The unsigned product test at 8 bits is exact (see [`ley_producto_sin_signo`]).
pub proof fn ley_producto_sin_signo_8(a: u8, b: u8)
    by (bit_vector)
    ensures
        (((((a as u16) * (b as u16)) as u16) >> 8u32) != 0) == ((a as u16) * (b as u16) > 0xff),
{
}

/// The signed sum test at 16 bits is exact (see [`ley_suma_con_signo`]).
pub proof fn ley_suma_con_signo_16(a: i16, b: i16)
    by (bit_vector)
    ensures
        ((((a ^ ((a + b) as i16)) & (b ^ ((a + b) as i16))) >> 15u32) != 0) == (a + b > 0x7fff || a + b < -0x8000),
{
}

/// The signed difference test at 16 bits is exact (see [`ley_resta_con_signo`]).
pub proof fn ley_resta_con_signo_16(a: i16, b: i16)
    by (bit_vector)
    ensures
        ((((a ^ b) & (a ^ ((a - b) as i16))) >> 15u32) != 0) == (a - b > 0x7fff || a - b < -0x8000),
{
}

/// The signed product test at 16 bits is exact (see [`ley_producto_con_signo`]).
pub proof fn ley_producto_con_signo_16(a: i16, b: i16)
    by (bit_vector)
    ensures
        (((((a as i32) * (b as i32)) as i32) >> 16u32) as i16 != (((a as i32) * (b as i32)) as i16) >> 15u32) == (
        (a as i32) * (b as i32) > 0x7fff || (a as i32) * (b as i32) < -0x8000),
{
}

/// The unsigned sum test at 16 bits is exact (see [`ley_suma_sin_signo`]).
pub proof fn ley_suma_sin_signo_16(a: u16, b: u16)
    by (bit_vector)
    ensures
        (((a + b) as u16) < a) == (a + b > 0xffff),
{
}

/// The unsigned difference test at 16 bits is exact (see [`ley_resta_sin_signo`]).
pub proof fn ley_resta_sin_signo_16(a: u16, b: u16)
    by (bit_vector)
    ensures
        (((a - b) as u16) > a) == (a < b),
{
}

/// The unsigned product test at 16 bits is exact (see [`ley_producto_sin_signo`]).
pub proof fn ley_producto_sin_signo_16(a: u16, b: u16)
    by (bit_vector)
    ensures
        (((((a as u32) * (b as u32)) as u32) >> 16u32) != 0) == ((a as u32) * (b as u32) > 0xffff),
{
}

/// The signed sum test at 64 bits is exact (see [`ley_suma_con_signo`]).
pub proof fn ley_suma_con_signo_64(a: i64, b: i64)
    by (bit_vector)
    ensures
        ((((a ^ ((a + b) as i64)) & (b ^ ((a + b) as i64))) >> 63u32) != 0) == (a + b > 0x7fff_ffff_ffff_ffff || a + b < -0x8000_0000_0000_0000),
{
}

/// The signed difference test at 64 bits is exact (see [`ley_resta_con_signo`]).
pub proof fn ley_resta_con_signo_64(a: i64, b: i64)
    by (bit_vector)
    ensures
        ((((a ^ b) & (a ^ ((a - b) as i64))) >> 63u32) != 0) == (a - b > 0x7fff_ffff_ffff_ffff || a - b < -0x8000_0000_0000_0000),
{
}

/// The signed product test at 64 bits is exact (see [`ley_producto_con_signo`]).
pub proof fn ley_producto_con_signo_64(a: i64, b: i64)
    by (bit_vector)
    ensures
        (((((a as i128) * (b as i128)) as i128) >> 64u32) as i64 != (((a as i128) * (b as i128)) as i64) >> 63u32) == (
        (a as i128) * (b as i128) > 0x7fff_ffff_ffff_ffff || (a as i128) * (b as i128) < -0x8000_0000_0000_0000),
{
}

/// The unsigned sum test at 64 bits is exact (see [`ley_suma_sin_signo`]).
pub proof fn ley_suma_sin_signo_64(a: u64, b: u64)
    by (bit_vector)
    ensures
        (((a + b) as u64) < a) == (a + b > 0xffff_ffff_ffff_ffff),
{
}

/// The unsigned difference test at 64 bits is exact (see [`ley_resta_sin_signo`]).
pub proof fn ley_resta_sin_signo_64(a: u64, b: u64)
    by (bit_vector)
    ensures
        (((a - b) as u64) > a) == (a < b),
{
}

/// The unsigned product test at 64 bits is exact (see [`ley_producto_sin_signo`]).
pub proof fn ley_producto_sin_signo_64(a: u64, b: u64)
    by (bit_vector)
    ensures
        (((((a as u128) * (b as u128)) as u128) >> 64u32) != 0) == ((a as u128) * (b as u128) > 0xffff_ffff_ffff_ffff),
{
}

/// The test chosen follows the signedness of the left operand's type: the
/// signed test for `Entero8`, `Entero16`, `Entero32` and `Entero64`, the
/// unsigned one for `Natural8`, `Natural16`, `Natural32` and `Natural64`, for
/// each of `+`, `-` and `*`, whatever the operands.
pub proof fn ley_comprobacion_sigue_el_signo(
    a: Box<SpecExpresion>,
    b: Box<SpecExpresion>,
    s: crate::ast::Span,
    t: SpecTipo,
)
    ensures
        t == SpecTipo::Entero8 || t == SpecTipo::Entero16 || t == SpecTipo::Entero32 || t == SpecTipo::Entero64
            ==> {
            &&& comprobacion_de(SpecExpresion::Binaria(a, OperadorBinario::Suma, b, s), t) == Ok::<
                Comprobacion,
                (u32, Seq<char>),
            >(Comprobacion::SumaConSigno)
            &&& comprobacion_de(SpecExpresion::Binaria(a, OperadorBinario::Resta, b, s), t) == Ok::<
                Comprobacion,
                (u32, Seq<char>),
            >(Comprobacion::RestaConSigno)
            &&& comprobacion_de(SpecExpresion::Binaria(a, OperadorBinario::Multiplicacion, b, s), t) == Ok::<
                Comprobacion,
                (u32, Seq<char>),
            >(Comprobacion::ProductoConSigno)
        },
        t == SpecTipo::Natural8 || t == SpecTipo::Natural16 || t == SpecTipo::Natural32 || t == SpecTipo::Natural64
            ==> {
            &&& comprobacion_de(SpecExpresion::Binaria(a, OperadorBinario::Suma, b, s), t) == Ok::<
                Comprobacion,
                (u32, Seq<char>),
            >(Comprobacion::SumaSinSigno)
            &&& comprobacion_de(SpecExpresion::Binaria(a, OperadorBinario::Resta, b, s), t) == Ok::<
                Comprobacion,
                (u32, Seq<char>),
            >(Comprobacion::RestaSinSigno)
            &&& comprobacion_de(SpecExpresion::Binaria(a, OperadorBinario::Multiplicacion, b, s), t) == Ok::<
                Comprobacion,
                (u32, Seq<char>),
            >(Comprobacion::ProductoSinSigno)
        },
{
}

} // verus!
