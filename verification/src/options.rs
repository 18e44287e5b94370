//! What an isolate is made with: the script, its budgets, and the
//! environment variables that the script can read.

use vstd::prelude::*;

verus! {

/// The map that a list of (key, value) pairs stands for: a later pair
/// replaces an earlier one with the same key.
pub open spec fn map_of(pairs: Seq<(Seq<char>, Seq<char>)>) -> Map<Seq<char>, Seq<char>>
    decreases pairs.len(),
{
    if pairs.len() == 0 {
        Map::empty()
    } else {
        map_of(pairs.drop_last()).insert(pairs.last().0, pairs.last().1)
    }
}

/// A key is in the map exactly when some pair has it, and no pair behind the
/// last one with that key changes its value.
pub proof fn lemma_map_of_last(pairs: Seq<(Seq<char>, Seq<char>)>, key: Seq<char>, at: int)
    requires
        0 <= at < pairs.len(),
        pairs[at].0 == key,
        forall|j: int| at < j < pairs.len() ==> pairs[j].0 != key,
    ensures
        map_of(pairs).contains_key(key),
        map_of(pairs)[key] == pairs[at].1,
    decreases pairs.len(),
{
    if at < pairs.len() - 1 {
        lemma_map_of_last(pairs.drop_last(), key, at);
    }
}

/// A key that no pair has is not in the map.
pub proof fn lemma_map_of_absent(pairs: Seq<(Seq<char>, Seq<char>)>, key: Seq<char>)
    requires
        forall|j: int| 0 <= j < pairs.len() ==> pairs[j].0 != key,
    ensures
        !map_of(pairs).contains_key(key),
    decreases pairs.len(),
{
    if pairs.len() > 0 {
        lemma_map_of_absent(pairs.drop_last(), key);
    }
}

/// The environment variables of an isolate: a map from names to values.
#[derive(Clone, Debug, PartialEq, Eq)]
pub struct Environment {
    pairs: Vec<(String, String)>,
}

impl Environment {
    /// The pairs in the order in which they were inserted.
    pub closed spec fn pairs(&self) -> Seq<(Seq<char>, Seq<char>)> {
        self.pairs@.map_values(|e: (String, String)| (e.0@, e.1@))
    }
}

impl View for Environment {
    type V = Map<Seq<char>, Seq<char>>;

    open spec fn view(&self) -> Map<Seq<char>, Seq<char>> {
        map_of(self.pairs())
    }
}

impl Environment {
    /// The environment without a variable.
    pub fn new() -> (r: Environment)
        ensures
            r@ == Map::<Seq<char>, Seq<char>>::empty(),
            r.pairs() == Seq::<(Seq<char>, Seq<char>)>::empty(),
    {
        let r = Environment { pairs: Vec::new() };
        assert(r.pairs() =~= Seq::empty());
        r
    }

    /// Gives `key` the value `value`, replacing the one it had.
    pub fn insert(&mut self, key: String, value: String)
        ensures
            final(self)@ == old(self)@.insert(key@, value@),
            final(self).pairs() == old(self).pairs().push((key@, value@)),
    {
        let ghost added = (key@, value@);
        self.pairs.push((key, value));
        assert(self.pairs() =~= old(self).pairs().push(added));
        assert(self.pairs().drop_last() =~= old(self).pairs());
    }

    /// The value of `key`, if it has one.
    pub fn get(&self, key: &String) -> (r: Option<String>)
        ensures
            r is Some <==> self@.contains_key(key@),
            r matches Some(value) ==> value@ == self@[key@],
    {
        let mut i: usize = self.pairs.len();
        while i > 0
            invariant
                0 <= i <= self.pairs.len(),
                forall|j: int| i <= j < self.pairs.len() ==> self.pairs()[j].0 != key@,
            decreases i,
        {
            i -= 1;
            let entry = &self.pairs[i];
            assert(self.pairs()[i as int] == (entry.0@, entry.1@));
            if entry.0 == *key {
                proof {
                    lemma_map_of_last(self.pairs(), key@, i as int);
                }
                return Some(entry.1.clone());
            }
        }
        proof {
            lemma_map_of_absent(self.pairs(), key@);
        }
        None
    }

    /// The environment that a list of pairs stands for; `None` stands for no
    /// variable at all.
    pub fn from_entries(entries: Option<Vec<(String, String)>>) -> (r: Environment)
        ensures
            r@ == match entries {
                Some(list) => map_of(list@.map_values(|e: (String, String)| (e.0@, e.1@))),
                None => Map::empty(),
            },
    {
        match entries {
            Some(list) => {
                let r = Environment { pairs: list };
                r
            },
            None => Environment::new(),
        }
    }

    /// The pairs in the order in which they were inserted. Inserting them in
    /// this order into an empty map gives the environment.
    pub fn to_vec(&self) -> (r: Vec<(String, String)>)
        ensures
            r@.map_values(|e: (String, String)| (e.0@, e.1@)) == self.pairs(),
    {
        let mut out: Vec<(String, String)> = Vec::new();
        let mut i: usize = 0;
        while i < self.pairs.len()
            invariant
                0 <= i <= self.pairs.len(),
                out@.map_values(|e: (String, String)| (e.0@, e.1@)) == self.pairs().take(i as int),
            decreases self.pairs.len() - i,
        {
            let ghost before = out@.map_values(|e: (String, String)| (e.0@, e.1@));
            let entry = &self.pairs[i];
            assert(self.pairs()[i as int] == (entry.0@, entry.1@));
            assert(self.pairs().take(i as int + 1) =~= self.pairs().take(i as int).push(
                self.pairs()[i as int],
            ));
            out.push((entry.0.clone(), entry.1.clone()));
            assert(out@.map_values(|e: (String, String)| (e.0@, e.1@)) =~= before.push(
                self.pairs()[i as int],
            ));
            i += 1;
        }
        assert(self.pairs().take(i as int) =~= self.pairs());
        out
    }
}

/// The wall-clock budget of a request that names none, in milliseconds.
pub const DEFAULT_TIMEOUT_MS: u64 = 1000;

/// The budget for evaluating the script that names none, in milliseconds.
pub const DEFAULT_STARTUP_TIMEOUT_MS: u64 = 2000;

/// What an isolate is made with.
#[derive(Clone, Debug, PartialEq, Eq)]
pub struct IsolateOptions {
    /// The script: one module that exports `handler`.
    pub source: String,
    /// The wall-clock budget of each request, in milliseconds.
    pub timeout_ms: u64,
    /// The budget for evaluating the script, in milliseconds.
    pub startup_timeout_ms: u64,
    /// The soft limit of the heap in bytes; `None` leaves the engine's own.
    pub heap_limit: Option<u64>,
    /// Whether the script may generate code at run time.
    pub allow_code_generation: bool,
    /// A pair that tags the isolate's log records.
    pub metadata: Option<(String, String)>,
    /// The variables that the script can read.
    pub environment: Environment,
    /// A startup snapshot of the engine, where one was built.
    pub snapshot: Option<Vec<u8>>,
}

impl IsolateOptions {
    /// Options for `source` with the default budgets: no heap limit of its
    /// own, no code generation, no metadata, no variable, no snapshot.
    pub fn new(source: String) -> (r: IsolateOptions)
        ensures
            r.source == source,
            r.timeout_ms == DEFAULT_TIMEOUT_MS,
            r.startup_timeout_ms == DEFAULT_STARTUP_TIMEOUT_MS,
            r.heap_limit is None,
            !r.allow_code_generation,
            r.metadata is None,
            r.environment@ == Map::<Seq<char>, Seq<char>>::empty(),
            r.snapshot is None,
    {
        IsolateOptions {
            source,
            timeout_ms: DEFAULT_TIMEOUT_MS,
            startup_timeout_ms: DEFAULT_STARTUP_TIMEOUT_MS,
            heap_limit: None,
            allow_code_generation: false,
            metadata: None,
            environment: Environment::new(),
            snapshot: None,
        }
    }

    /// The same options with another budget per request.
    pub fn timeout(self, timeout_ms: u64) -> (r: IsolateOptions)
        ensures
            r == (IsolateOptions { timeout_ms, ..self }),
    {
        IsolateOptions { timeout_ms, ..self }
    }

    /// The same options with another budget for evaluating the script.
    pub fn startup_timeout(self, startup_timeout_ms: u64) -> (r: IsolateOptions)
        ensures
            r == (IsolateOptions { startup_timeout_ms, ..self }),
    {
        IsolateOptions { startup_timeout_ms, ..self }
    }

    /// The same options with a heap limit in bytes.
    pub fn heap_limit(self, bytes: u64) -> (r: IsolateOptions)
        ensures
            r == (IsolateOptions { heap_limit: Some(bytes), ..self }),
    {
        IsolateOptions { heap_limit: Some(bytes), ..self }
    }

    /// The same options with code generation permitted or not.
    pub fn allow_code_generation(self, allow: bool) -> (r: IsolateOptions)
        ensures
            r == (IsolateOptions { allow_code_generation: allow, ..self }),
    {
        IsolateOptions { allow_code_generation: allow, ..self }
    }

    /// The same options with other metadata.
    pub fn metadata(self, metadata: Option<(String, String)>) -> (r: IsolateOptions)
        ensures
            r == (IsolateOptions { metadata, ..self }),
    {
        IsolateOptions { metadata, ..self }
    }

    /// The same options with another environment.
    pub fn environment_variables(self, environment: Environment) -> (r: IsolateOptions)
        ensures
            r == (IsolateOptions { environment, ..self }),
    {
        IsolateOptions { environment, ..self }
    }

    /// The same options with a startup snapshot.
    pub fn snapshot(self, snapshot: Vec<u8>) -> (r: IsolateOptions)
        ensures
            r == (IsolateOptions { snapshot: Some(snapshot), ..self }),
    {
        IsolateOptions { snapshot: Some(snapshot), ..self }
    }

    /// The same options for another script.
    pub fn with_source(self, source: String) -> (r: IsolateOptions)
        ensures
            r == (IsolateOptions { source, ..self }),
    {
        IsolateOptions { source, ..self }
    }
}

} // verus!
