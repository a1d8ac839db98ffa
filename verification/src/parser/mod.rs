//! The registry of supported languages, looked up by name.
pub mod common;
pub mod language;
pub mod languages;

use vstd::prelude::*;
use crate::parser::language::LanguageSupport;
use crate::text::str_eq;

verus! {

/// Supported languages, each under its name; a name occurs at most once.
///
/// `names[i]` is the name that `langs[i]` answered when it was registered.
pub struct LanguageRegistry {
    names: Vec<String>,
    langs: Vec<Box<dyn LanguageSupport>>,
}

/// The first index at or after `i` at which `s` holds `x`.
pub open spec fn first_index(s: Seq<Seq<char>>, x: Seq<char>, i: int) -> Option<int>
    decreases s.len() - i,
{
    if i < 0 || i >= s.len() {
        None
    } else if s[i] == x {
        Some(i)
    } else {
        first_index(s, x, i + 1)
    }
}

pub proof fn lemma_first_index(s: Seq<Seq<char>>, x: Seq<char>, i: int)
    requires
        0 <= i,
    ensures
        first_index(s, x, i) matches Some(k) ==> (i <= k < s.len() && s[k] == x),
        first_index(s, x, i) is None ==> forall|k: int| i <= k < s.len() ==> s[k] != x,
        (exists|k: int| i <= k < s.len() && s[k] == x) ==> first_index(s, x, i) is Some,
    decreases s.len() - i,
{
    if i < s.len() && s[i] != x {
        lemma_first_index(s, x, i + 1);
    }
}

/// In a list without duplicates, the first index of an element is its index.
pub proof fn lemma_first_index_unique(s: Seq<Seq<char>>, j: int)
    requires
        s.no_duplicates(),
        0 <= j < s.len(),
    ensures
        first_index(s, s[j], 0) == Some(j),
{
    lemma_first_index(s, s[j], 0);
}

/// The general-purpose programming languages.
pub open spec fn general_purpose_names() -> Set<Seq<char>> {
    set![
        "rust"@,
        "typescript"@,
        "javascript"@,
        "python"@,
        "java"@,
        "go"@,
        "c"@,
        "cpp"@,
        "ruby"@,
        "csharp"@,
        "swift"@,
        "kotlin"@,
    ]
}

/// Scripting, functional and scientific languages.
pub open spec fn scripting_and_scientific_names() -> Set<Seq<char>> {
    set![
        "bash"@,
        "lua"@,
        "elixir"@,
        "zig"@,
        "haskell"@,
        "groovy"@,
        "r"@,
        "julia"@,
        "matlab"@,
    ]
}

/// Style, markup, configuration, schema and query languages (those whose
/// grammar the library links).
pub open spec fn structural_names() -> Set<Seq<char>> {
    set![
        "css"@,
        "yaml"@,
        "proto"@,
        "makefile"@,
        "graphql"@,
        "xml"@,
        "sql"@,
        "prisma"@,
    ]
}

/// The names of the languages that a new registry holds.
pub open spec fn default_names() -> Set<Seq<char>> {
    general_purpose_names().union(scripting_and_scientific_names()).union(structural_names())
}

/// The views of a list of strings.
pub open spec fn names_of(es: Seq<String>) -> Seq<Seq<char>> {
    es.map_values(|e: String| e@)
}

impl LanguageRegistry {
    /// The registered names, in registration order.
    pub closed spec fn names(&self) -> Seq<Seq<char>> {
        names_of(self.names@)
    }

    /// No name is registered twice, and each language sits beside the name it
    /// answers to.
    #[verifier::type_invariant]
    pub closed spec fn wf(&self) -> bool {
        &&& self.names().no_duplicates()
        &&& self.langs@.len() == self.names@.len()
        &&& forall|i: int|
            0 <= i < self.langs@.len() ==> (#[trigger] self.langs@[i]).spec_name()
                == self.names()[i]
    }

    /// The registered languages, in the order of `names()`.
    pub closed spec fn entries(&self) -> Seq<Box<dyn LanguageSupport>> {
        self.langs@
    }

    /// The position of `name` in `names()` (meaningful where `has(name)`), so
    /// `entries()[slot(name)]` is the language registered under `name`.
    pub closed spec fn slot(&self, name: Seq<char>) -> int {
        first_index(self.names(), name, 0).unwrap()
    }

    /// Whether a language is registered under `name`.
    pub open spec fn has(&self, name: Seq<char>) -> bool {
        self.names().contains(name)
    }

    /// `after` is this registry with a language registered under `name`: a
    /// new name is appended, a known one keeps its place, and no name occurs
    /// twice.
    pub open spec fn registers(self, after: LanguageRegistry, name: Seq<char>) -> bool {
        &&& after.wf()
        &&& self.has(name) ==> after.names() == self.names()
        &&& !self.has(name) ==> after.names() == self.names().push(name)
        &&& after.names().to_set() == self.names().to_set().insert(name)
    }

    /// An empty registry.
    pub fn empty() -> (r: LanguageRegistry)
        ensures
            r.wf(),
            r.names() == Seq::<Seq<char>>::empty(),
    {
        let r = LanguageRegistry { names: Vec::new(), langs: Vec::new() };
        assert(names_of(r.names@) =~= Seq::<Seq<char>>::empty());
        r
    }

    /// The index of the entry named `name`, if any.
    fn position(&self, name: &str) -> (r: Option<usize>)
        ensures
            r matches Some(k) ==> (k < self.names@.len() && self.names()[k as int] == name@
                && first_index(self.names(), name@, 0) == Some(k as int)),
            r is None ==> (!self.names().contains(name@) && first_index(self.names(), name@, 0)
                is None),
    {
        let mut i: usize = 0;
        while i < self.names.len()
            invariant
                i <= self.names@.len(),
                first_index(self.names(), name@, 0) == first_index(self.names(), name@, i as int),
            decreases self.names@.len() - i,
        {
            if str_eq(self.names[i].as_str(), name) {
                return Some(i);
            }
            i += 1;
        }
        proof {
            lemma_first_index(self.names(), name@, 0);
        }
        None
    }

    /// Registers `lang` under its name, replacing a language registered
    /// under the same name.
    pub fn register(&mut self, lang: Box<dyn LanguageSupport>)
        ensures
            old(self).registers(*final(self), lang.spec_name()),
            final(self).entries()[final(self).slot(lang.spec_name())] == lang,
            forall|n: Seq<char>|
                old(self).has(n) && n != lang.spec_name() ==> final(self).entries()[
                    #[trigger] final(self).slot(n)
                ] == old(self).entries()[old(self).slot(n)],
    {
        proof {
            use_type_invariant(&*self);
        }
        let ghost old_self = *self;
        let ghost nm = lang.spec_name();
        let ghost gl = lang;
        let name = lang.name().to_owned();
        let mut one = Vec::new();
        one.push(lang);
        let position = self.position(name.as_str());
        let mut taken = LanguageRegistry::empty();
        std::mem::swap(&mut taken, self);
        let LanguageRegistry { mut names, mut langs } = taken;
        let ghost old_ns = names@;
        let ghost old_langs = langs@;
        let ghost ns = names_of(old_ns);
        assert(ns == old_self.names());
        assert(old_langs == old_self.entries());
        match position {
            Some(k) => {
                names.set(k, name);
                let mut rest = langs.split_off(k);
                let _replaced = rest.remove(0);
                langs.append(&mut one);
                langs.append(&mut rest);
                assert(langs@.len() == old_langs.len());
                assert(langs@[k as int] == gl);
                assert(forall|i: int| 0 <= i < old_langs.len() && i != k ==> langs@[i] == old_langs[i]);
                assert(names_of(names@) =~= ns);
                assert(ns.to_set() =~= ns.to_set().insert(nm)) by {
                    assert(ns[k as int] == nm);
                }
                assert forall|i: int| 0 <= i < langs@.len() implies (#[trigger] langs@[i]).spec_name()
                    == names_of(names@)[i] by {
                    if i != k {
                        assert(langs@[i] == old_langs[i]);
                    }
                }
                *self = LanguageRegistry { names, langs };
                proof {
                    lemma_first_index_unique(ns, k as int);
                    assert(self.slot(nm) == k);
                    assert forall|n: Seq<char>|
                        old_self.has(n) && n != nm implies self.entries()[#[trigger] self.slot(n)]
                        == old_self.entries()[old_self.slot(n)] by {
                        let j = choose|j: int| 0 <= j < ns.len() && ns[j] == n;
                        lemma_first_index_unique(ns, j);
                        assert(j != k);
                    }
                }
            },
            None => {
                names.push(name);
                langs.append(&mut one);
                assert(langs@.len() == old_langs.len() + 1);
                assert(langs@[old_langs.len() as int] == gl);
                assert(forall|i: int| 0 <= i < old_langs.len() ==> langs@[i] == old_langs[i]);
                let ghost ns2 = names_of(names@);
                assert(ns2 =~= ns.push(nm));
                proof {
                    ns.lemma_push_to_set_commute(nm);
                    assert forall|i: int, j: int| 0 <= i < j < ns2.len() implies ns2[i] != ns2[j] by {
                        assert(ns[i] == ns2[i]);
                        if j < ns2.len() - 1 {
                            assert(ns[j] == ns2[j]);
                        }
                    }
                }
                assert forall|i: int| 0 <= i < langs@.len() implies (#[trigger] langs@[i]).spec_name()
                    == ns2[i] by {
                    if i < old_langs.len() {
                        assert(langs@[i] == old_langs[i]);
                        assert(ns2[i] == ns[i]);
                    }
                }
                *self = LanguageRegistry { names, langs };
                proof {
                    lemma_first_index_unique(ns2, ns2.len() - 1);
                    assert forall|n: Seq<char>|
                        old_self.has(n) && n != nm implies self.entries()[#[trigger] self.slot(n)]
                        == old_self.entries()[old_self.slot(n)] by {
                        let j = choose|j: int| 0 <= j < ns.len() && ns[j] == n;
                        lemma_first_index_unique(ns, j);
                        lemma_first_index_unique(ns2, j);
                    }
                }
            },
        }
    }

    /// A registry holding the default languages.
    pub fn new() -> (r: LanguageRegistry)
        ensures
            r.wf(),
            r.names().to_set() == default_names(),
    {
        let mut r = LanguageRegistry::empty();
        r.register_defaults();
        proof {
            assert(Seq::<Seq<char>>::empty().to_set() =~= Set::empty());
            use_type_invariant(&r);
        }
        r
    }

    fn register_defaults(&mut self)
        ensures
            final(self).names().to_set() == old(self).names().to_set().union(
                default_names(),
            ),
    {
        let ghost s0 = self.names().to_set();
        self.register_general_purpose();
        self.register_scripting_and_scientific();
        self.register_structural();
        assert(self.names().to_set() =~= s0.union(default_names()));
    }

    /// Registers the general-purpose programming languages.
    #[verifier::rlimit(50)]
    fn register_general_purpose(&mut self)
        ensures
            final(self).names().to_set() == old(self).names().to_set().union(general_purpose_names()),
    {
        let ghost s0 = self.names().to_set();
        self.register(Box::new(languages::rust::RustLanguage));
        self.register(Box::new(languages::typescript::TypeScriptLanguage));
        self.register(Box::new(languages::javascript::JavaScriptLanguage));
        self.register(Box::new(languages::python::PythonLanguage));
        self.register(Box::new(languages::java::JavaLanguage));
        self.register(Box::new(languages::go::GoLanguage));
        self.register(Box::new(languages::c::CLanguage));
        self.register(Box::new(languages::cpp::CppLanguage));
        self.register(Box::new(languages::ruby::RubyLanguage));
        self.register(Box::new(languages::csharp::CSharpLanguage));
        self.register(Box::new(languages::swift::SwiftLanguage));
        self.register(Box::new(languages::kotlin::KotlinLanguage));
        assert(self.names().to_set() =~= s0.union(general_purpose_names()));
    }

    /// Registers the scripting, functional and scientific languages.
    #[verifier::rlimit(50)]
    fn register_scripting_and_scientific(&mut self)
        ensures
            final(self).names().to_set() == old(self).names().to_set().union(scripting_and_scientific_names()),
    {
        let ghost s0 = self.names().to_set();
        self.register(Box::new(languages::bash::BashLanguage));
        self.register(Box::new(languages::lua::LuaLanguage));
        self.register(Box::new(languages::elixir::ElixirLanguage));
        self.register(Box::new(languages::zig::ZigLanguage));
        self.register(Box::new(languages::haskell::HaskellLanguage));
        self.register(Box::new(languages::groovy::GroovyLanguage));
        self.register(Box::new(languages::r::RLanguage));
        self.register(Box::new(languages::julia::JuliaLanguage));
        self.register(Box::new(languages::matlab::MatlabLanguage));
        assert(self.names().to_set() =~= s0.union(scripting_and_scientific_names()));
    }

    /// Registers the style, markup, configuration, schema and query languages.
    #[verifier::rlimit(80)]
    fn register_structural(&mut self)
        ensures
            final(self).names().to_set() == old(self).names().to_set().union(structural_names()),
    {
        let ghost s0 = self.names().to_set();
        self.register(Box::new(languages::css::CssLanguage));
        self.register(Box::new(languages::yaml::YamlLanguage));
        self.register(Box::new(languages::proto::ProtoLanguage));
        self.register(Box::new(languages::makefile::MakefileLanguage));
        self.register(Box::new(languages::graphql::GraphqlLanguage));
        self.register(Box::new(languages::xml::XmlLanguage));
        self.register(Box::new(languages::sql::SqlLanguage));
        self.register(Box::new(languages::prisma::PrismaLanguage));
        assert(self.names().to_set() =~= s0.union(structural_names()));
    }

    /// The language registered under `name`.
    pub fn get(&self, name: &str) -> (r: Option<&Box<dyn LanguageSupport>>)
        ensures
            r is Some <==> self.has(name@),
            r matches Some(l) ==> *l == self.entries()[self.slot(name@)] && l.spec_name() == name@,
    {
        proof {
            use_type_invariant(self);
        }
        match self.position(name) {
            Some(k) => Some(&self.langs[k]),
            None => None,
        }
    }

    /// The registered names, each once.
    pub fn supported_languages(&self) -> (r: Vec<&str>)
        ensures
            r@.map_values(|s: &str| s@) == self.names(),
            self.names().no_duplicates(),
    {
        proof {
            use_type_invariant(self);
        }
        let mut out: Vec<&str> = Vec::new();
        let mut i: usize = 0;
        while i < self.names.len()
            invariant
                i <= self.names@.len(),
                out@.map_values(|s: &str| s@) == self.names().take(i as int),
            decreases self.names@.len() - i,
        {
            let ghost before = out@;
            let nm: &str = self.names[i].as_str();
            out.push(nm);
            assert(out@ == before.push(nm));
            assert(nm@ == self.names()[i as int]);
            assert(out@.map_values(|s: &str| s@) =~= before.map_values(|s: &str| s@).push(nm@));
            assert(self.names().take(i + 1) =~= self.names().take(i as int).push(nm@));
            i += 1;
        }
        assert(self.names().take(i as int) =~= self.names());
        out
    }
}

} // verus!

verus! {

/// A language, once registered, is registered under its name, so `get`
/// answers it.
pub proof fn law_registered_is_found(before: LanguageRegistry, after: LanguageRegistry, name: Seq<char>)
    requires
        before.registers(after, name),
    ensures
        after.has(name),
{
    assert(after.names().to_set().contains(name));
}

/// Registering a language keeps every language registered before it.
pub proof fn law_register_keeps_others(
    before: LanguageRegistry,
    after: LanguageRegistry,
    name: Seq<char>,
    other: Seq<char>,
)
    requires
        before.registers(after, name),
        before.has(other),
    ensures
        after.has(other),
{
    assert(before.names().to_set().contains(other));
    assert(after.names().to_set().contains(other));
}

/// Registering a language adds no name but its own.
pub proof fn law_register_adds_only_its_name(
    before: LanguageRegistry,
    after: LanguageRegistry,
    name: Seq<char>,
    other: Seq<char>,
)
    requires
        before.registers(after, name),
        after.has(other),
        other != name,
    ensures
        before.has(other),
{
    assert(after.names().to_set().contains(other));
    assert(before.names().to_set().contains(other));
}

/// Registering under a name that is already registered leaves the list of
/// names as it is.
pub proof fn law_register_again_keeps_names(
    first: LanguageRegistry,
    second: LanguageRegistry,
    third: LanguageRegistry,
    name: Seq<char>,
)
    requires
        first.registers(second, name),
        second.registers(third, name),
    ensures
        third.names() == second.names(),
{
    law_registered_is_found(first, second, name);
}

/// The language registered under a name answers to that name, so what `get`
/// returns for a listed name reports that very name.
pub proof fn law_entry_answers_to_its_name(r: LanguageRegistry, name: Seq<char>)
    requires
        r.wf(),
        r.has(name),
    ensures
        0 <= r.slot(name) < r.entries().len(),
        r.entries()[r.slot(name)].spec_name() == name,
{
    lemma_first_index(r.names(), name, 0);
}

/// After any registration, no name is listed twice.
pub proof fn law_names_unique(before: LanguageRegistry, after: LanguageRegistry, name: Seq<char>)
    requires
        before.registers(after, name),
    ensures
        after.names().no_duplicates(),
{
}

} // verus!

verus! {

impl Default for LanguageRegistry {
    fn default() -> (r: Self)
        ensures
            r.wf(),
            r.names().to_set() == default_names(),
    {
        Self::new()
    }
}

} // verus!

