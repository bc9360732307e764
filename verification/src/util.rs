//! Selecting the functions of a file that belong to a contract.
use vstd::prelude::*;

use crate::model::{Attribute, ImplFn, ItemImpl, SourceFile};
use crate::text::str_eq;

verus! {

/// The attribute is `#[contractimpl]`, written with or without a path.
pub open spec fn is_contractimpl_attr(a: Attribute) -> bool {
    a.path@.len() > 0 && a.path@.last()@ == "contractimpl"@
}

/// The `impl` block carries `#[contractimpl]`.
pub open spec fn is_contractimpl(imp: ItemImpl) -> bool {
    exists|k: int| 0 <= k < imp.attrs@.len() && #[trigger] is_contractimpl_attr(imp.attrs@[k])
}

/// The functions of the `#[contractimpl]` blocks among `impls`, in order.
pub open spec fn contractimpl_fns(impls: Seq<ItemImpl>) -> Seq<ImplFn>
    decreases impls.len(),
{
    if impls.len() == 0 {
        Seq::empty()
    } else {
        contractimpl_fns(impls.drop_last()) + if is_contractimpl(impls.last()) {
            impls.last().fns@
        } else {
            Seq::empty()
        }
    }
}

fn has_contractimpl_attr(imp: &ItemImpl) -> (r: bool)
    ensures
        r == is_contractimpl(*imp),
{
    let n = imp.attrs.len();
    let mut k: usize = 0;
    while k < n
        invariant
            n == imp.attrs@.len(),
            k <= n,
            forall|j: int| 0 <= j < k ==> !#[trigger] is_contractimpl_attr(imp.attrs@[j]),
        decreases n - k,
    {
        let path = &imp.attrs[k].path;
        if path.len() > 0 && str_eq(path[path.len() - 1].as_str(), "contractimpl") {
            assert(is_contractimpl_attr(imp.attrs@[k as int]));
            return true;
        }
        k = k + 1;
    }
    false
}

/// The functions of the file's `#[contractimpl]` blocks, in order.
pub fn contractimpl_functions(file: &SourceFile) -> (r: Vec<&ImplFn>)
    ensures
        r@.map_values(|f: &ImplFn| *f) == contractimpl_fns(file.impls@),
{
    let mut r: Vec<&ImplFn> = Vec::new();
    let n = file.impls.len();
    let mut i: usize = 0;
    while i < n
        invariant
            n == file.impls@.len(),
            i <= n,
            r@.map_values(|f: &ImplFn| *f) == contractimpl_fns(file.impls@.take(i as int)),
        decreases n - i,
    {
        let imp = &file.impls[i];
        proof {
            assert(file.impls@.take(i + 1).drop_last() =~= file.impls@.take(i as int));
        }
        if has_contractimpl_attr(imp) {
            let m = imp.fns.len();
            let mut j: usize = 0;
            let ghost before = r@.map_values(|f: &ImplFn| *f);
            while j < m
                invariant
                    m == imp.fns@.len(),
                    j <= m,
                    r@.map_values(|f: &ImplFn| *f) == before + imp.fns@.take(j as int),
                decreases m - j,
            {
                let ghost prev = r@;
                r.push(&imp.fns[j]);
                proof {
                    assert(r@.map_values(|f: &ImplFn| *f) =~= prev.map_values(|f: &ImplFn| *f).push(
                        imp.fns@[j as int],
                    ));
                    assert(r@.map_values(|f: &ImplFn| *f) =~= before + imp.fns@.take(j + 1));
                }
                j = j + 1;
            }
            proof {
                assert(imp.fns@.take(m as int) =~= imp.fns@);
            }
        } else {
            proof {
                assert(contractimpl_fns(file.impls@.take(i + 1)) =~= contractimpl_fns(
                    file.impls@.take(i as int),
                ));
            }
        }
        i = i + 1;
    }
    proof {
        assert(file.impls@.take(n as int) =~= file.impls@);
    }
    r
}

} // verus!
