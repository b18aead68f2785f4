//! The system dictionary: the process-wide mapping from internal class name
//! (slash form) to runtime class descriptor. It holds at most one entry per
//! name; a descriptor is published only after linking completes.

use vstd::prelude::*;

use crate::oop::ClassId;

verus! {

pub struct SysDic {
    entries: Vec<(Vec<u8>, ClassId)>,
}

/// The binding a name has in a sequence of entries, if any.
pub open spec fn dic_find(entries: Seq<(Vec<u8>, ClassId)>, key: Seq<u8>) -> Option<ClassId>
    decreases entries.len(),
{
    if entries.len() == 0 {
        None
    } else {
        if entries.last().0@ == key {
            Some(entries.last().1)
        } else {
            dic_find(entries.drop_last(), key)
        }
    }
}

impl SysDic {
    pub closed spec fn view(self) -> Seq<(Vec<u8>, ClassId)> {
        self.entries@
    }

    /// The descriptor bound to a name.
    pub open spec fn spec_find(self, key: Seq<u8>) -> Option<ClassId> {
        dic_find(self.view(), key)
    }

    pub fn new() -> (r: SysDic)
        ensures
            forall|k: Seq<u8>| r.spec_find(k) is None,
    {
        let r = SysDic { entries: Vec::new() };
        proof {
            assert(forall|k: Seq<u8>| r.spec_find(k) is None);
        }
        r
    }

    /// Binds a name to a descriptor; a later `put` for the same name wins,
    /// every other name keeps its binding.
    pub fn put(&mut self, key: &Vec<u8>, klass: ClassId)
        ensures
            final(self).spec_find(key@) == Some(klass),
            forall|k: Seq<u8>| k != key@ ==> #[trigger] final(self).spec_find(k) == old(
                self,
            ).spec_find(k),
    {
        let k = crate::classfile::copy_bytes(key);
        self.entries.push((k, klass));
        proof {
            assert(self.view().drop_last() =~= old(self).view());
            assert(self.view().last().0@ == key@);
        }
    }

    /// The descriptor registered under a name, if one is.
    pub fn find(&self, key: &Vec<u8>) -> (r: Option<ClassId>)
        ensures
            r == self.spec_find(key@),
    {
        let n = self.entries.len();
        let mut i: usize = n;
        proof {
            assert(self.view().take(n as int) =~= self.view());
        }
        while i > 0
            invariant
                i <= n,
                n == self.view().len(),
                dic_find(self.view().take(i as int), key@) == self.spec_find(key@),
            decreases i,
        {
            i = i - 1;
            let e = &self.entries[i];
            if crate::classfile::bytes_eq(&e.0, key.as_slice()) {
                proof {
                    assert(self.view().take(i + 1 as int).last() == self.view()[i as int]);
                }
                return Some(e.1);
            }
            proof {
                assert(self.view().take(i + 1 as int).drop_last() =~= self.view().take(i as int));
            }
        }
        proof {
            assert(self.view().take(0int) =~= Seq::<(Vec<u8>, ClassId)>::empty());
        }
        None
    }
}

} // verus!
