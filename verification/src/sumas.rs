//! Sumas de secuencias de enteros, con los hechos que usan los totales.
use vstd::prelude::*;

verus! {

pub open spec fn suma(s: Seq<int>) -> int
    decreases s.len(),
{
    if s.len() == 0 {
        0
    } else {
        suma(s.drop_last()) + s.last()
    }
}

pub proof fn lema_suma_push(s: Seq<int>, x: int)
    ensures
        suma(s.push(x)) == suma(s) + x,
{
    assert(s.push(x).drop_last() =~= s);
}

/// Sumar el prefijo de largo `i + 1` es sumar el de largo `i` más el elemento `i`.
pub proof fn lema_suma_take(s: Seq<int>, i: int)
    requires
        0 <= i < s.len(),
    ensures
        suma(s.take(i + 1)) == suma(s.take(i)) + s[i],
{
    assert(s.take(i + 1).drop_last() =~= s.take(i));
}

pub proof fn lema_suma_todo(s: Seq<int>)
    ensures
        suma(s.take(s.len() as int)) == suma(s),
{
    assert(s.take(s.len() as int) =~= s);
}

/// Con todos los sumandos no negativos, cada prefijo suma a lo sumo el total
/// y al menos cero.
pub proof fn lema_suma_prefijo(s: Seq<int>, i: int)
    requires
        0 <= i <= s.len(),
        forall|k: int| 0 <= k < s.len() ==> s[k] >= 0,
    ensures
        0 <= suma(s.take(i)) <= suma(s),
    decreases s.len(),
{
    if s.len() > 0 {
        if i == s.len() {
            lema_suma_todo(s);
            lema_suma_no_negativa(s);
        } else {
            let t = s.drop_last();
            assert(t.take(i) =~= s.take(i));
            lema_suma_prefijo(t, i);
        }
    } else {
        assert(s.take(i) =~= s);
    }
}

pub proof fn lema_suma_no_negativa(s: Seq<int>)
    requires
        forall|k: int| 0 <= k < s.len() ==> s[k] >= 0,
    ensures
        suma(s) >= 0,
    decreases s.len(),
{
    if s.len() > 0 {
        lema_suma_no_negativa(s.drop_last());
    }
}

/// Si cada sumando de `a` es a lo sumo el de `b`, la suma también.
pub proof fn lema_suma_monotona(a: Seq<int>, b: Seq<int>)
    requires
        a.len() == b.len(),
        forall|k: int| 0 <= k < a.len() ==> a[k] <= b[k],
    ensures
        suma(a) <= suma(b),
    decreases a.len(),
{
    if a.len() > 0 {
        lema_suma_monotona(a.drop_last(), b.drop_last());
    }
}

/// Cuánto suman las cantidades de la clave `p` en los pares (clave, cantidad) dados.
pub open spec fn cantidad_de(pares: Seq<(i64, i64)>, p: i64) -> int
    decreases pares.len(),
{
    if pares.len() == 0 {
        0
    } else {
        cantidad_de(pares.drop_last(), p) + if pares.last().0 == p {
            pares.last().1 as int
        } else {
            0int
        }
    }
}

/// Con cantidades no negativas, lo acumulado de una clave crece con el prefijo.
pub proof fn lema_cantidad_de_take(s: Seq<(i64, i64)>, p: i64, j: int, k: int)
    requires
        0 <= j <= k <= s.len(),
        forall|i: int| 0 <= i < s.len() ==> (#[trigger] s[i]).1 >= 0,
    ensures
        0 <= cantidad_de(s.take(j), p) <= cantidad_de(s.take(k), p),
    decreases k,
{
    if k == 0 {
        assert(s.take(0).len() == 0);
    } else {
        assert(s.take(k).drop_last() =~= s.take(k - 1));
        assert(s.take(k).last() == s[k - 1]);
        if j < k {
            lema_cantidad_de_take(s, p, j, k - 1);
        } else {
            lema_cantidad_de_take(s, p, k - 1, k - 1);
        }
    }
}

} // verus!
