//! Global settings: the registry of workers by name, each with the
//! directory it lives in.
use vstd::prelude::*;

verus! {

/// Global settings.
#[derive(Debug)]
pub struct Settings {
    /// Registered workers (name, directory), names unique, in order of
    /// registration.
    pub workers: Vec<(String, String)>,
    pub gcp_project: Option<String>,
    pub gcp_region: Option<String>,
}

pub open spec fn entry_views(s: Seq<(String, String)>) -> Seq<(Seq<char>, Seq<char>)> {
    s.map_values(|p: (String, String)| (p.0@, p.1@))
}

pub open spec fn names_unique(s: Seq<(Seq<char>, Seq<char>)>) -> bool {
    forall|i: int, k: int| 0 <= i < s.len() && 0 <= k < s.len() && i != k ==> (#[trigger] s[i]).0 != (#[trigger] s[k]).0
}

pub open spec fn registered(s: Seq<(Seq<char>, Seq<char>)>, name: Seq<char>) -> bool {
    exists|i: int| 0 <= i < s.len() && (#[trigger] s[i]).0 == name
}

pub open spec fn not_registered_message(name: Seq<char>) -> Seq<char> {
    "Worker '"@ + name + "' is not registered"@
}

pub open spec fn not_found_message(name: Seq<char>) -> Seq<char> {
    "Worker '"@ + name + "' not found. Run 'geoengine apply' to register it."@
}

/// The settings file inside the configuration directory.
pub fn get_settings_file(config_dir: &str) -> (r: String)
    ensures
        r@ == config_dir@ + "/settings.yaml"@,
{
    String::from_str(config_dir).concat("/settings.yaml")
}

impl Settings {
    pub open spec fn entries(&self) -> Seq<(Seq<char>, Seq<char>)> {
        entry_views(self.workers@)
    }

    pub open spec fn wf(&self) -> bool {
        names_unique(self.entries())
    }

    pub fn new() -> (r: Settings)
        ensures
            r.wf(),
            r.entries().len() == 0,
    {
        Settings { workers: Vec::new(), gcp_project: None, gcp_region: None }
    }

    fn position(&self, name: &str) -> (r: Option<usize>)
        ensures
            match r {
                Some(i) => i < self.workers@.len() && self.entries()[i as int].0 == name@,
                None => !registered(self.entries(), name@),
            },
    {
        let mut i: usize = 0;
        while i < self.workers.len()
            invariant
                i <= self.workers@.len(),
                forall|k: int| 0 <= k < i ==> (#[trigger] self.entries()[k]).0 != name@,
            decreases self.workers@.len() - i,
        {
            if crate::text::same_text(self.workers[i].0.as_str(), name) {
                return Some(i);
            }
            i = i + 1;
        }
        None
    }

    /// Registers a worker, or moves a registered one to another directory.
    pub fn register_worker(&mut self, name: &str, path: &str) -> (r: Result<(), String>)
        requires
            old(self).wf(),
        ensures
            final(self).wf(),
            final(self).gcp_project == old(self).gcp_project,
            final(self).gcp_region == old(self).gcp_region,
            r is Ok,
            match old(self).position_spec(name@) {
                Some(i) => final(self).entries() == old(self).entries().update(i, (name@, path@)),
                None => final(self).entries() == old(self).entries().push((name@, path@)),
            },
    {
        let ghost before = self.entries();
        match self.position(name) {
            Some(i) => {
                proof { self.lemma_position_unique(name@, i as int); }
                self.workers.set(i, (name.to_string(), path.to_string()));
                assert(self.entries() =~= before.update(i as int, (name@, path@)));
            },
            None => {
                self.workers.push((name.to_string(), path.to_string()));
                assert(self.entries() =~= before.push((name@, path@)));
            },
        }
        Ok(())
    }

    /// Where the named worker stands, if registered.
    pub open spec fn position_spec(&self, name: Seq<char>) -> Option<int> {
        if registered(self.entries(), name) {
            Some(choose|i: int| 0 <= i < self.entries().len() && (#[trigger] self.entries()[i]).0 == name)
        } else {
            None
        }
    }

    proof fn lemma_position_unique(&self, name: Seq<char>, i: int)
        requires
            self.wf(),
            0 <= i < self.entries().len(),
            self.entries()[i].0 == name,
        ensures
            self.position_spec(name) == Some(i),
    {
        let k = choose|k: int| 0 <= k < self.entries().len() && (#[trigger] self.entries()[k]).0 == name;
        assert(k == i);
    }

    /// The first registered worker whose directory is `dir` (both compared
    /// as given; callers pass canonical paths).
    pub fn find_worker_by_path(&self, dir: &str) -> (r: Option<(String, String)>)
        ensures
            match r {
                Some(p) => p.1@ == dir@ && exists|i: int| 0 <= i < self.entries().len() && self.entries()[i] == (p.0@, p.1@),
                None => forall|i: int| 0 <= i < self.entries().len() ==> (#[trigger] self.entries()[i]).1 != dir@,
            },
    {
        let mut i: usize = 0;
        while i < self.workers.len()
            invariant
                i <= self.workers@.len(),
                forall|k: int| 0 <= k < i ==> (#[trigger] self.entries()[k]).1 != dir@,
            decreases self.workers@.len() - i,
        {
            if crate::text::same_text(self.workers[i].1.as_str(), dir) {
                assert(self.entries()[i as int] == (self.workers@[i as int].0@, self.workers@[i as int].1@));
                return Some((self.workers[i].0.clone(), self.workers[i].1.clone()));
            }
            i = i + 1;
        }
        None
    }

    /// Removes a registered worker; fails where the name is not registered.
    pub fn unregister_worker(&mut self, name: &str) -> (r: Result<(), String>)
        requires
            old(self).wf(),
        ensures
            final(self).wf(),
            final(self).gcp_project == old(self).gcp_project,
            final(self).gcp_region == old(self).gcp_region,
            r is Ok <==> registered(old(self).entries(), name@),
            r matches Err(m) ==> m@ == not_registered_message(name@) && final(self).entries() == old(self).entries(),
            r is Ok ==> final(self).entries() == old(self).entries().remove(old(self).position_spec(name@)->0),
    {
        let ghost before = self.entries();
        match self.position(name) {
            Some(i) => {
                proof { self.lemma_position_unique(name@, i as int); }
                self.workers.remove(i);
                assert(self.entries() =~= before.remove(i as int));
                assert forall|a: int, b: int| 0 <= a < self.entries().len() && 0 <= b < self.entries().len() && a != b implies (#[trigger] self.entries()[a]).0 != (#[trigger] self.entries()[b]).0 by {
                    let a0 = if a < i { a } else { a + 1 };
                    let b0 = if b < i { b } else { b + 1 };
                    assert(self.entries()[a] == before[a0]);
                    assert(self.entries()[b] == before[b0]);
                }
                Ok(())
            },
            None => Err(String::from_str("Worker '").concat(name).concat("' is not registered")),
        }
    }

    /// The directory of a registered worker.
    pub fn get_worker_path(&self, name: &str) -> (r: Result<String, String>)
        requires
            self.wf(),
        ensures
            match self.position_spec(name@) {
                Some(i) => r matches Ok(p) && p@ == self.entries()[i].1,
                None => r matches Err(m) && m@ == not_found_message(name@),
            },
    {
        match self.position(name) {
            Some(i) => {
                proof { self.lemma_position_unique(name@, i as int); }
                Ok(self.workers[i].1.clone())
            },
            None => Err(String::from_str("Worker '").concat(name).concat("' not found. Run 'geoengine apply' to register it.")),
        }
    }

    /// All registered workers with their directories.
    pub fn list_workers(&self) -> (r: Vec<(String, String)>)
        ensures
            entry_views(r@) == self.entries(),
    {
        let mut out: Vec<(String, String)> = Vec::new();
        let mut i: usize = 0;
        while i < self.workers.len()
            invariant
                i <= self.workers@.len(),
                entry_views(out@) == self.entries().subrange(0, i as int),
            decreases self.workers@.len() - i,
        {
            let ghost before = out@;
            let name = self.workers[i].0.clone();
            let dir = self.workers[i].1.clone();
            out.push((name, dir));
            assert(entry_views(out@) =~= entry_views(before).push(self.entries()[i as int]));
            assert(entry_views(out@) =~= self.entries().subrange(0, i + 1));
            i = i + 1;
        }
        assert(self.entries().subrange(0, self.workers@.len() as int) =~= self.entries());
        out
    }
}

} // verus!
