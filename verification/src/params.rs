use vstd::prelude::*;

verus! {

/// One injected parameter: a name and the string value it carries into the
/// sandbox.
pub struct Param {
    pub name: String,
    pub value: String,
}

/// First-match lookup of `name` among a sequence of parameters.
pub open spec fn lookup(params: Seq<Param>, name: Seq<char>) -> Option<Seq<char>>
    decreases params.len(),
{
    if params.len() == 0 {
        None
    } else if params[0].name@ == name {
        Some(params[0].value@)
    } else {
        lookup(params.drop_first(), name)
    }
}

/// No two parameters in the sequence share a name.
pub open spec fn unique_names(params: Seq<Param>) -> bool {
    forall|i: int, j: int|
        0 <= i < j < params.len() ==> (#[trigger] params[i]).name@ != (#[trigger] params[j]).name@
}

/// The value of an optional parameter value, as a character sequence.
pub open spec fn value_view(v: Option<String>) -> Option<Seq<char>> {
    match v {
        Some(s) => Some(s@),
        None => None,
    }
}

proof fn lemma_lookup_none_absent(params: Seq<Param>, name: Seq<char>)
    requires
        lookup(params, name) is None,
    ensures
        forall|i: int| 0 <= i < params.len() ==> (#[trigger] params[i]).name@ != name,
    decreases params.len(),
{
    if params.len() > 0 {
        lemma_lookup_none_absent(params.drop_first(), name);
        assert forall|i: int| 0 <= i < params.len() implies (#[trigger] params[i]).name@
            != name by {
            if i > 0 {
                assert(params.drop_first()[i - 1] == params[i]);
            }
        }
    }
}

proof fn lemma_lookup_push(params: Seq<Param>, p: Param, name: Seq<char>)
    ensures
        lookup(params, name) is Some ==> lookup(params.push(p), name) == lookup(params, name),
        lookup(params, name) is None && p.name@ == name ==> lookup(params.push(p), name)
            == Some(p.value@),
        lookup(params, name) is None && p.name@ != name ==> lookup(params.push(p), name)
            is None,
    decreases params.len(),
{
    if params.len() == 0 {
        assert(params.push(p)[0] == p);
        assert(params.push(p).drop_first() =~= Seq::<Param>::empty());
        assert(lookup(Seq::<Param>::empty(), name) is None);
    } else {
        assert(params.push(p)[0] == params[0]);
        assert(params.push(p).drop_first() =~= params.drop_first().push(p));
        lemma_lookup_push(params.drop_first(), p, name);
        if params[0].name@ == name {
            assert(lookup(params, name) == Some(params[0].value@));
            assert(lookup(params.push(p), name) == Some(params[0].value@));
        } else {
            assert(lookup(params, name) == lookup(params.drop_first(), name));
            assert(lookup(params.push(p), name) == lookup(params.drop_first().push(p), name));
        }
    }
}

/// Parameter injection round trip: adding a parameter whose name was not yet
/// present and then looking that name up yields exactly its value; every
/// other name resolves as before, and distinct names stay distinct.
pub proof fn lemma_injection_round_trip(params: Seq<Param>, p: Param)
    requires
        lookup(params, p.name@) is None,
    ensures
        lookup(params.push(p), p.name@) == Some(p.value@),
        forall|k: Seq<char>| k != p.name@ ==> lookup(params.push(p), k) == lookup(params, k),
        unique_names(params) ==> unique_names(params.push(p)),
{
    lemma_lookup_push(params, p, p.name@);
    assert forall|k: Seq<char>| k != p.name@ implies lookup(params.push(p), k) == lookup(
        params,
        k,
    ) by {
        lemma_lookup_push(params, p, k);
    }
    if unique_names(params) {
        lemma_lookup_none_absent(params, p.name@);
        assert forall|i: int, j: int| 0 <= i < j < params.push(p).len() implies (
        #[trigger] params.push(p)[i]).name@ != (#[trigger] params.push(p)[j]).name@ by {
            if j < params.len() {
                assert(params.push(p)[i] == params[i]);
                assert(params.push(p)[j] == params[j]);
            } else {
                assert(params.push(p)[j] == p);
                assert(params.push(p)[i] == params[i]);
            }
        }
    }
}

/// The set of named string parameters a request injects into the sandbox.
///
/// Keys are unique and order carries no meaning; once the capability context
/// is built from it, the set is read only.
pub struct ParameterSet {
    pairs: Vec<Param>,
}

impl View for ParameterSet {
    type V = Seq<Param>;

    closed spec fn view(&self) -> Seq<Param> {
        self.pairs@
    }
}

impl Param {
    /// An equal copy of the pair.
    pub fn duplicate(&self) -> (r: Param)
        ensures
            r == *self,
    {
        let r = Param { name: self.name.clone(), value: self.value.clone() };
        r
    }
}

impl ParameterSet {
    /// Every name appears at most once.
    pub open spec fn wf(&self) -> bool {
        unique_names(self@)
    }

    /// The empty parameter set.
    pub fn new() -> (r: ParameterSet)
        ensures
            r@ == Seq::<Param>::empty(),
            r.wf(),
    {
        ParameterSet { pairs: Vec::new() }
    }

    /// Add a parameter whose name is not yet present. Afterwards the new
    /// name resolves to exactly `value` and every other name resolves as
    /// before.
    pub fn insert(&mut self, name: String, value: String)
        requires
            old(self).wf(),
            lookup(old(self)@, name@) is None,
        ensures
            final(self).wf(),
            final(self)@ == old(self)@.push(Param { name, value }),
            lookup(final(self)@, name@) == Some(value@),
            forall|k: Seq<char>| k != name@ ==> lookup(final(self)@, k) == lookup(old(self)@, k),
    {
        proof {
            lemma_injection_round_trip(self@, Param { name: name, value: value });
        }
        self.pairs.push(Param { name, value });
    }

    /// Look a name up; the result is exactly what `lookup` says of the set.
    pub fn get(&self, name: &String) -> (r: Option<String>)
        ensures
            value_view(r) == lookup(self@, name@),
    {
        let n = self.pairs.len();
        let mut i: usize = 0;
        proof {
            assert(self@.skip(0) =~= self@);
        }
        while i < n
            invariant
                i <= n,
                n == self.pairs.len(),
                lookup(self@, name@) == lookup(self@.skip(i as int), name@),
            decreases n - i,
        {
            proof {
                assert(self@.skip(i as int)[0] == self@[i as int]);
            }
            if self.pairs[i].name.eq(name) {
                return Some(self.pairs[i].value.clone());
            }
            proof {
                assert(self@.skip(i as int).drop_first() =~= self@.skip(i as int + 1));
            }
            i += 1;
        }
        proof {
            assert(self@.skip(n as int) =~= Seq::<Param>::empty());
        }
        None
    }

    /// The pairs handed to the sandbox as its environment: exactly the
    /// parameters of this set, and nothing else.
    pub fn env_pairs(&self) -> (r: Vec<Param>)
        ensures
            r@ == self@,
    {
        let n = self.pairs.len();
        let mut out: Vec<Param> = Vec::new();
        let mut i: usize = 0;
        while i < n
            invariant
                i <= n,
                n == self.pairs.len(),
                out@ == self@.take(i as int),
            decreases n - i,
        {
            out.push(self.pairs[i].duplicate());
            proof {
                assert(self@.take(i as int).push(self@[i as int]) =~= self@.take(i as int + 1));
            }
            i += 1;
        }
        proof {
            assert(self@.take(n as int) =~= self@);
        }
        out
    }
}

} // verus!
