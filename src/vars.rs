use vstd::prelude::*;

verus! {

/// The named inputs handed to the provisioning engine, in the order they
/// were added.
#[derive(Debug)]
pub struct VarMap {
    entries: Vec<(String, String)>,
}

impl View for VarMap {
    type V = Seq<(Seq<char>, Seq<char>)>;

    closed spec fn view(&self) -> Seq<(Seq<char>, Seq<char>)> {
        self.entries@.map_values(|e: (String, String)| (e.0@, e.1@))
    }
}

impl VarMap {
    /// A mapping with no entries.
    pub fn new() -> (r: VarMap)
        ensures
            r@ == Seq::<(Seq<char>, Seq<char>)>::empty(),
    {
        let r = VarMap { entries: Vec::new() };
        assert(r@ =~= Seq::<(Seq<char>, Seq<char>)>::empty());
        r
    }

    /// Adds an entry after the existing ones.
    pub fn push(&mut self, key: String, value: String)
        ensures
            final(self)@ == old(self)@.push((key@, value@)),
    {
        self.entries.push((key, value));
        assert(self@ =~= old(self)@.push((key@, value@)));
    }

    /// A copy with the same entries.
    pub fn duplicate(&self) -> (r: VarMap)
        ensures
            r@ == self@,
    {
        let mut entries: Vec<(String, String)> = Vec::new();
        let mut i: usize = 0;
        while i < self.entries.len()
            invariant
                i <= self.entries@.len(),
                entries@.len() == i,
                forall|j: int| 0 <= j < i ==> (#[trigger] entries@[j]).0@ == self.entries@[j].0@
                    && entries@[j].1@ == self.entries@[j].1@,
            decreases self.entries@.len() - i,
        {
            let k = self.entries[i].0.clone();
            let v = self.entries[i].1.clone();
            entries.push((k, v));
            i = i + 1;
        }
        let r = VarMap { entries };
        assert(r@ =~= self@);
        r
    }

    /// The number of entries.
    pub fn len(&self) -> (r: usize)
        ensures
            r == self@.len(),
    {
        self.entries.len()
    }

    /// The entries, in order.
    pub fn entries(&self) -> (r: &Vec<(String, String)>)
        ensures
            r@.map_values(|e: (String, String)| (e.0@, e.1@)) == self@,
    {
        &self.entries
    }

    /// The value of the first entry named `key`.
    pub fn get(&self, key: &str) -> (r: Option<&String>)
        ensures
            r is None <==> forall|i: int| 0 <= i < self@.len() ==> (#[trigger] self@[i]).0 != key@,
            r matches Some(v) ==> exists|i: int|
                0 <= i < self@.len() && (#[trigger] self@[i]).0 == key@ && self@[i].1 == v@,
    {
        let k = String::from_str(key);
        let mut i: usize = 0;
        while i < self.entries.len()
            invariant
                i <= self@.len(),
                k@ == key@,
                self@.len() == self.entries@.len(),
                forall|j: int| 0 <= j < i ==> (#[trigger] self@[j]).0 != key@,
            decreases self@.len() - i,
        {
            assert(self@[i as int] == (self.entries@[i as int].0@, self.entries@[i as int].1@));
            if self.entries[i].0 == k {
                return Some(&self.entries[i].1);
            }
            i = i + 1;
        }
        None
    }
}

} // verus!
