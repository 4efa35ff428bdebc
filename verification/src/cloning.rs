//! Value-preserving cloning. Verus knows nothing of a derived `Clone`,
//! so the model types implement it by hand with a contract that the
//! clone's view equals the original's, and this module lifts that
//! guarantee through vectors and options.

use vstd::prelude::*;

verus! {

/// Whether every possible result of `T::clone` has the same deep view
/// as its argument.
pub open spec fn clone_keeps_view<T: Clone + DeepView>() -> bool {
    forall|x: T, y: T| call_ensures(T::clone, (&x,), y) ==> y.deep_view() == x.deep_view()
}

/// A copy of the vector with the same deep view.
pub fn clone_vec<T: Clone + DeepView>(v: &Vec<T>) -> (r: Vec<T>)
    requires
        clone_keeps_view::<T>(),
    ensures
        r.deep_view() == v.deep_view(),
        r@.len() == v@.len(),
{
    let r = v.clone();
    proof {
        assert forall|i: int| 0 <= i < v@.len() implies #[trigger] (r@[i].deep_view())
            == v@[i].deep_view() by {
            assert(cloned::<T>(v@[i], r@[i]));
        }
        assert(r.deep_view() =~= v.deep_view());
    }
    r
}

/// A copy of the option with the same deep view.
pub fn clone_option<T: Clone + DeepView>(v: &Option<T>) -> (r: Option<T>)
    requires
        clone_keeps_view::<T>(),
    ensures
        r.deep_view() == v.deep_view(),
        r is Some <==> v is Some,
{
    let r = v.clone();
    proof {
        if v.is_some() {
            assert(cloned::<T>(v.unwrap(), r.unwrap()));
        }
    }
    r
}

/// `String::clone` keeps the string's view.
pub proof fn lemma_clone_string()
    ensures
        clone_keeps_view::<String>(),
{
    assert forall|x: String, y: String| call_ensures(String::clone, (&x,), y) implies y.deep_view()
        == x.deep_view() by {}
}

/// `u8::clone` keeps the byte.
pub proof fn lemma_clone_u8()
    ensures
        clone_keeps_view::<u8>(),
{
    assert forall|x: u8, y: u8| call_ensures(u8::clone, (&x,), y) implies y.deep_view()
        == x.deep_view() by {}
}

/// A copy of a byte vector with the same view.
pub fn clone_bytes(v: &Vec<u8>) -> (r: Vec<u8>)
    ensures
        r.deep_view() == v.deep_view(),
        r@ == v@,
{
    proof {
        lemma_clone_u8();
    }
    let r = clone_vec(v);
    proof {
        assert forall|i: int| 0 <= i < v@.len() implies r@[i] == v@[i] by {
            assert(r.deep_view()[i] == v.deep_view()[i]);
        }
        assert(r@ =~= v@);
    }
    r
}

/// A copy of a string vector with the same view.
pub fn clone_strings(v: &Vec<String>) -> (r: Vec<String>)
    ensures
        r.deep_view() == v.deep_view(),
        r@.len() == v@.len(),
{
    proof {
        lemma_clone_string();
    }
    clone_vec(v)
}

} // verus!
