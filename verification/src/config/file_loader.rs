use vstd::prelude::*;
use vstd::multiset::Multiset;

use crate::config::text::{to_vec, spec_trim, suffix, prefix, text_eq, to_string, trim};
use crate::config::{ConfigError, ConfigParseError};
use crate::config::listing::{first_named, framed_text, position_of, str_chars};

verus! {

/// Name of the script module that holds global constants; its functions
/// can't be referenced from the tables.
pub const GLOBAL_SCRIPT: [char; 6] = ['g', 'l', 'o', 'b', 'a', 'l'];

/// A script function that the configuration refers to.
#[derive(Debug, Clone, Copy, PartialEq, Eq, Structural)]
pub struct FunctionPointer {
    pub index: usize,
    pub parameter_count: usize,
}

/// A script file as the script engine compiled it: the functions it defines
/// with their parameter counts, or why it could not be used.
pub struct ScriptModule {
    pub filename: Vec<char>,
    pub functions: Result<Vec<(Vec<char>, usize)>, ConfigParseError>,
}

/// The functions that a script text defines, each with its parameter
/// count, as the script engine compiles it; or the engine's message.
pub uninterp spec fn spec_compiled(script: Seq<char>) -> Result<Multiset<(Seq<char>, nat)>, Seq<char>>;

/// Compiles `script` with a `rhai::Engine` set up as the configuration
/// loader sets it up (no optimization, variables not checked) and lists the
/// functions of the `AST` (`AST::iter_functions`) with their parameter
/// counts; a parse error is handed back as its message (`to_string`). The
/// engine walks its functions in an order of its own, so only the multiset
/// of them is named.
#[verifier::external_body]
fn compile_script(script: &str) -> (r: Result<Vec<(Vec<char>, usize)>, String>)
    ensures
        match r {
            Ok(fs) => spec_compiled(script@) == Ok::<Multiset<(Seq<char>, nat)>, Seq<char>>(functions_view(fs@).to_multiset()),
            Err(m) => spec_compiled(script@) == Err::<Multiset<(Seq<char>, nat)>, Seq<char>>(m@),
        },
{
    let mut engine = rhai::Engine::new();
    engine.set_optimization_level(rhai::OptimizationLevel::None);
    engine.set_strict_variables(false);
    match engine.compile(script) {
        Ok(ast) => Ok(ast.iter_functions().map(|f| (f.name.chars().collect(), f.params.len())).collect()),
        Err(e) => Err(e.to_string()),
    }
}

impl ScriptModule {
    /// The script file `filename` with its text, if the file could be read:
    /// a missing file is `FileMissing`, a text the engine can't compile is
    /// `ScriptCompilation`, both with the file's path.
    pub fn load(filename: &[char], source: Option<&str>) -> (r: ScriptModule)
        ensures
            r.filename@ == filename@,
            match source {
                None => r.functions matches Err(e) && e@ == ConfigError::FileMissing(spec_script_path(filename@)),
                Some(text) => match spec_compiled(text@) {
                    Ok(fs) => r.functions matches Ok(v) && functions_view(v@).to_multiset() == fs,
                    Err(m) => r.functions matches Err(e) && e@ == ConfigError::ScriptCompilation(spec_script_path(filename@), m),
                },
            },
    {
        let functions = match source {
            None => Err(ConfigParseError::FileMissing(script_path(filename))),
            Some(text) => match compile_script(text) {
                Ok(fs) => Ok(fs),
                Err(m) => Err(ConfigParseError::ScriptCompilation(script_path(filename), m)),
            },
        };
        ScriptModule { filename: to_vec(filename), functions }
    }
}

/// Reads the configuration tables; it keeps the names defined so far and
/// the script functions the tables refer to.
pub struct FileLoader {
    scripts: Vec<ScriptModule>,
    rhai_functions: Vec<(Vec<char>, Vec<char>, usize)>,
    pub movement_types: Vec<Vec<char>>,
    pub unit_types: Vec<Vec<char>>,
    pub terrain_types: Vec<Vec<char>>,
    pub token_types: Vec<Vec<char>>,
    pub commander_types: Vec<Vec<char>>,
    pub hero_types: Vec<Vec<char>>,
    pub flags: Vec<Vec<char>>,
    pub tags: Vec<Vec<char>>,
    pub effects: Vec<Vec<char>>,
    pub attack_types: Vec<Vec<char>>,
    pub splash_types: Vec<Vec<char>>,
}

/// What the loader knows, as sequences.
pub struct LoaderNames {
    pub scripts: Seq<(Seq<char>, Result<Seq<(Seq<char>, nat)>, ConfigError>)>,
    pub rhai_functions: Seq<(Seq<char>, Seq<char>, nat)>,
    pub movement_types: Seq<Seq<char>>,
    pub unit_types: Seq<Seq<char>>,
    pub terrain_types: Seq<Seq<char>>,
    pub token_types: Seq<Seq<char>>,
    pub commander_types: Seq<Seq<char>>,
    pub hero_types: Seq<Seq<char>>,
    pub flags: Seq<Seq<char>>,
    pub tags: Seq<Seq<char>>,
    pub effects: Seq<Seq<char>>,
    pub attack_types: Seq<Seq<char>>,
    pub splash_types: Seq<Seq<char>>,
}

pub open spec fn names_view(v: Seq<Vec<char>>) -> Seq<Seq<char>> {
    v.map_values(|s: Vec<char>| s@)
}

pub open spec fn functions_view(v: Seq<(Vec<char>, usize)>) -> Seq<(Seq<char>, nat)> {
    v.map_values(|f: (Vec<char>, usize)| (f.0@, f.1 as nat))
}

pub open spec fn script_view(m: ScriptModule) -> (Seq<char>, Result<Seq<(Seq<char>, nat)>, ConfigError>) {
    (
        m.filename@,
        match m.functions {
            Ok(fs) => Ok(functions_view(fs@)),
            Err(e) => Err(e@),
        },
    )
}

impl View for FileLoader {
    type V = LoaderNames;

    closed spec fn view(&self) -> LoaderNames {
        LoaderNames {
            scripts: self.scripts@.map_values(|m: ScriptModule| script_view(m)),
            rhai_functions: self.rhai_functions@.map_values(|f: (Vec<char>, Vec<char>, usize)| (f.0@, f.1@, f.2 as nat)),
            movement_types: names_view(self.movement_types@),
            unit_types: names_view(self.unit_types@),
            terrain_types: names_view(self.terrain_types@),
            token_types: names_view(self.token_types@),
            commander_types: names_view(self.commander_types@),
            hero_types: names_view(self.hero_types@),
            flags: names_view(self.flags@),
            tags: names_view(self.tags@),
            effects: names_view(self.effects@),
            attack_types: names_view(self.attack_types@),
            splash_types: names_view(self.splash_types@),
        }
    }
}

/// Position of the name `s` among `names` and the names after adding it at
/// the end where it is missing.
pub open spec fn spec_register(names: Seq<Seq<char>>, s: Seq<char>) -> (int, Seq<Seq<char>>) {
    match first_named(names, s) {
        Some(i) => (i, names),
        None => (names.len() as int, names.push(s)),
    }
}

/// Registering a name keeps a list of names free of repeats, and the name
/// then stands at the position handed back; registering it again hands back
/// the same position and changes nothing.
pub proof fn lemma_register_keeps_names_unique(names: Seq<Seq<char>>, s: Seq<char>)
    requires
        forall|i: int, j: int| 0 <= i < j < names.len() ==> names[i] != names[j],
    ensures
        ({
            let (k, after) = spec_register(names, s);
            &&& 0 <= k < after.len()
            &&& after[k] == s
            &&& forall|i: int, j: int| 0 <= i < j < after.len() ==> after[i] != after[j]
            &&& spec_register(after, s) == (k, after)
        }),
{
    crate::config::listing::lemma_first_named_from(names, s, 0);
    let (k, after) = spec_register(names, s);
    crate::config::listing::lemma_first_named_from(after, s, 0);
    if first_named(names, s) is None {
        assert(after[names.len() as int] == s);
        assert forall|i: int| 0 <= i < after.len() && after[i] == s implies i == k by {
            if i < names.len() {
                assert(after[i] == names[i]);
            }
        }
    } else {
        assert forall|i: int| 0 <= i < after.len() && after[i] == s implies i == k by {
            if i != k {
                if i < k {
                } else {
                    assert(names[i] != names[k]);
                }
            }
        }
    }
}

fn register_name(names: &mut Vec<Vec<char>>, s: &[char]) -> (r: usize)
    ensures
        (r as int, names_view(final(names)@)) == spec_register(names_view(old(names)@), s@),
{
    match position_of(names, s) {
        Some(i) => i,
        None => {
            let ghost before = names_view(names@);
            let n = names.len();
            names.push(to_vec(s));
            assert(names_view(names@) =~= before.push(s@));
            n
        },
    }
}

/// The lists of names that the configuration's own tables fill.
#[derive(Debug, Clone, Copy, PartialEq, Eq, Structural)]
pub enum NameKind {
    MovementType,
    UnitType,
    TerrainType,
    TokenType,
    CommanderType,
    HeroType,
    Flag,
    Tag,
}

/// The loader's names with `added` put at the end of the list of `kind`.
pub open spec fn spec_add_names(n: LoaderNames, kind: NameKind, added: Seq<Seq<char>>) -> LoaderNames {
    match kind {
        NameKind::MovementType => LoaderNames { movement_types: n.movement_types + added, ..n },
        NameKind::UnitType => LoaderNames { unit_types: n.unit_types + added, ..n },
        NameKind::TerrainType => LoaderNames { terrain_types: n.terrain_types + added, ..n },
        NameKind::TokenType => LoaderNames { token_types: n.token_types + added, ..n },
        NameKind::CommanderType => LoaderNames { commander_types: n.commander_types + added, ..n },
        NameKind::HeroType => LoaderNames { hero_types: n.hero_types + added, ..n },
        NameKind::Flag => LoaderNames { flags: n.flags + added, ..n },
        NameKind::Tag => LoaderNames { tags: n.tags + added, ..n },
    }
}

pub open spec fn strings_view(v: Seq<String>) -> Seq<Seq<char>> {
    v.map_values(|s: String| s@)
}

fn push_names(list: &mut Vec<Vec<char>>, added: &Vec<String>)
    ensures
        names_view(final(list)@) == names_view(old(list)@) + strings_view(added@),
{
    let ghost start = names_view(list@);
    let mut i: usize = 0;
    while i < added.len()
        invariant
            i <= added@.len(),
            names_view(list@) == start + strings_view(added@).take(i as int),
        decreases added.len() - i,
    {
        let ghost before = names_view(list@);
        list.push(str_chars(added[i].as_str()));
        assert(names_view(list@) =~= before.push(added@[i as int]@));
        assert(strings_view(added@).take(i + 1) =~= strings_view(added@).take(i as int).push(added@[i as int]@));
        i += 1;
    }
    assert(strings_view(added@).take(added@.len() as int) =~= strings_view(added@));
}

/// Index of the first `>` in `s`.
pub open spec fn first_arrow(s: Seq<char>) -> Option<int>
    decreases s.len(),
{
    if s.len() == 0 {
        None
    } else if s[0] == '>' {
        Some(0int)
    } else {
        match first_arrow(s.drop_first()) {
            Some(i) => Some(i + 1),
            None => None,
        }
    }
}

/// Position of the first registered function of file `file` named `name`
/// whose parameter count lies in `min..=max`.
pub open spec fn registered_function(
    fs: Seq<(Seq<char>, Seq<char>, nat)>,
    file: Seq<char>,
    name: Seq<char>,
    min: nat,
    max: nat,
) -> Option<int>
    decreases fs.len(),
{
    if fs.len() == 0 {
        None
    } else {
        match registered_function(fs.drop_last(), file, name, min, max) {
            Some(i) => Some(i),
            None => {
                let f = fs.last();
                if f.0 == file && f.1 == name && min <= f.2 <= max {
                    Some(fs.len() - 1)
                } else {
                    None
                }
            },
        }
    }
}

/// The compiled script file named `file`, the first one if there are several.
pub open spec fn find_script(
    scripts: Seq<(Seq<char>, Result<Seq<(Seq<char>, nat)>, ConfigError>)>,
    file: Seq<char>,
) -> Option<Result<Seq<(Seq<char>, nat)>, ConfigError>>
    decreases scripts.len(),
{
    if scripts.len() == 0 {
        None
    } else if scripts[0].0 == file {
        Some(scripts[0].1)
    } else {
        find_script(scripts.drop_first(), file)
    }
}

/// Parameter count of the first function named `name` with a count in `min..=max`.
pub open spec fn find_function(fs: Seq<(Seq<char>, nat)>, name: Seq<char>, min: nat, max: nat) -> Option<nat>
    decreases fs.len(),
{
    if fs.len() == 0 {
        None
    } else if fs[0].0 == name && min <= fs[0].1 <= max {
        Some(fs[0].1)
    } else {
        find_function(fs.drop_first(), name, min, max)
    }
}

/// The path under which a script file is looked for.
pub open spec fn spec_script_path(file: Seq<char>) -> Seq<char> {
    "scripts/"@ + file + ".rhai"@
}

/// Whether the script file `file` was found and compiled: `FileMissing`
/// with its path where it is not among the loader's scripts, and the error
/// it was loaded with where it is missing or did not compile.
pub open spec fn spec_check_script(names: LoaderNames, file: Seq<char>) -> Result<(), ConfigError> {
    match find_script(names.scripts, file) {
        None => Err(ConfigError::FileMissing(spec_script_path(file))),
        Some(Err(e)) => Err(e),
        Some(Ok(_)) => Ok(()),
    }
}

/// Result of looking up the script function `reference` ("file > function")
/// with `min..=max` parameters: the pointer, and whether it gets registered.
pub open spec fn spec_rhai_function(
    names: LoaderNames,
    reference: Seq<char>,
    min: nat,
    max: nat,
) -> Result<(FunctionPointer, bool), ConfigError> {
    match first_arrow(reference) {
        None => Err(ConfigError::ScriptNeedsFileAndFunctionName(reference)),
        Some(i) => {
            let file = spec_trim(reference.take(i));
            let name = spec_trim(reference.skip(i + 1));
            if file == GLOBAL_SCRIPT@ {
                Err(ConfigError::DontCallGlobalScriptDirectly(name))
            } else {
                match registered_function(names.rhai_functions, file, name, min, max) {
                    Some(k) => Ok((FunctionPointer { index: k as usize, parameter_count: names.rhai_functions[k].2 as usize }, false)),
                    None => match find_script(names.scripts, file) {
                        None => Err(ConfigError::FileMissing(spec_script_path(file))),
                        Some(Err(e)) => Err(e),
                        Some(Ok(fs)) => match find_function(fs, name, min, max) {
                            None => Err(ConfigError::ScriptFunctionNotFound(file, name)),
                            Some(pc) => Ok((
                                FunctionPointer { index: names.rhai_functions.len() as usize, parameter_count: pc as usize },
                                true,
                            )),
                        },
                    },
                }
            }
        },
    }
}

/// A script function lookup as a result and the loader's names after it.
pub open spec fn fp_result(r: Result<FunctionPointer, ConfigParseError>) -> Result<FunctionPointer, ConfigError> {
    match r {
        Ok(p) => Ok(p),
        Err(e) => Err(e@),
    }
}

/// Looking up `reference`: the pointer or the error, and the names after
/// the lookup (a function found in a script file gets registered).
pub open spec fn spec_rhai_step(names: LoaderNames, reference: Seq<char>, min: nat, max: nat) -> (Result<FunctionPointer, ConfigError>, LoaderNames) {
    match spec_rhai_function(names, reference, min, max) {
        Ok((p, registers)) => (Ok(p), if registers {
            LoaderNames {
                rhai_functions: names.rhai_functions.push((
                    spec_trim(reference.take(first_arrow(reference)->0)),
                    spec_trim(reference.skip(first_arrow(reference)->0 + 1)),
                    p.parameter_count as nat,
                )),
                ..names
            }
        } else {
            names
        }),
        Err(e) => (Err(e), names),
    }
}

/// The reference of the function that prepares the input of the script
/// function `reference`: the same text with `_input` appended.
pub open spec fn input_reference(reference: Seq<char>) -> Seq<char> {
    reference + seq!['_', 'i', 'n', 'p', 'u', 't']
}

/// Builds `input_reference(reference)`.
pub fn input_reference_text(reference: &[char]) -> (r: Vec<char>)
    ensures
        r@ == input_reference(reference@),
{
    let mut v = to_vec(reference);
    v.push('_');
    v.push('i');
    v.push('n');
    v.push('p');
    v.push('u');
    v.push('t');
    v
}

/// Builds `scripts/{file}.rhai`.
pub(crate) fn script_path(file: &[char]) -> (r: String)
    ensures
        r@ == spec_script_path(file@),
{
    framed_text("scripts/", file, ".rhai")
}


/// Index of the first `>` in `s`.
fn find_arrow(s: &[char]) -> (r: Option<usize>)
    ensures
        r matches Some(i) ==> first_arrow(s@) == Some(i as int) && i < s@.len(),
        r is None ==> first_arrow(s@) is None,
{
    let mut i: usize = 0;
    assert(s@.skip(0) =~= s@);
    while i < s.len()
        invariant
            i <= s@.len(),
            first_arrow(s@) == match first_arrow(s@.skip(i as int)) {
                Some(j) => Some(j + i),
                None => None,
            },
        decreases s.len() - i,
    {
        assert(s@.skip(i as int).drop_first() =~= s@.skip(i + 1));
        if s[i] == '>' {
            return Some(i);
        }
        i += 1;
    }
    None
}

impl FileLoader {
    /// A loader that knows no names yet; `scripts` are the script files the
    /// script engine compiled.
    pub fn new(scripts: Vec<ScriptModule>) -> (r: Self)
        ensures
            r@.scripts == scripts@.map_values(|m: ScriptModule| script_view(m)),
            r@.rhai_functions.len() == 0,
            r@.unit_types.len() == 0 && r@.terrain_types.len() == 0 && r@.hero_types.len() == 0,
            r@.movement_types.len() == 0 && r@.token_types.len() == 0 && r@.commander_types.len() == 0,
            r@.flags.len() == 0 && r@.tags.len() == 0 && r@.effects.len() == 0 && r@.attack_types.len() == 0 && r@.splash_types.len() == 0,
    {
        let r = FileLoader {
            scripts,
            rhai_functions: Vec::new(),
            movement_types: Vec::new(),
            unit_types: Vec::new(),
            terrain_types: Vec::new(),
            token_types: Vec::new(),
            commander_types: Vec::new(),
            hero_types: Vec::new(),
            flags: Vec::new(),
            tags: Vec::new(),
            effects: Vec::new(),
            attack_types: Vec::new(),
            splash_types: Vec::new(),
        };
        assert(r@.rhai_functions =~= Seq::empty());
        r
    }

    /// The movement type names known so far.
    pub fn movement_types_names(&self) -> (r: &Vec<Vec<char>>)
        ensures
            names_view(r@) == self@.movement_types,
    {
        &self.movement_types
    }

    /// The unit type names known so far.
    pub fn unit_types_names(&self) -> (r: &Vec<Vec<char>>)
        ensures
            names_view(r@) == self@.unit_types,
    {
        &self.unit_types
    }

    /// The terrain type names known so far.
    pub fn terrain_types_names(&self) -> (r: &Vec<Vec<char>>)
        ensures
            names_view(r@) == self@.terrain_types,
    {
        &self.terrain_types
    }

    /// The token type names known so far.
    pub fn token_types_names(&self) -> (r: &Vec<Vec<char>>)
        ensures
            names_view(r@) == self@.token_types,
    {
        &self.token_types
    }

    /// The commander type names known so far.
    pub fn commander_types_names(&self) -> (r: &Vec<Vec<char>>)
        ensures
            names_view(r@) == self@.commander_types,
    {
        &self.commander_types
    }

    /// The hero type names known so far.
    pub fn hero_types_names(&self) -> (r: &Vec<Vec<char>>)
        ensures
            names_view(r@) == self@.hero_types,
    {
        &self.hero_types
    }

    /// The flag names known so far.
    pub fn flags_names(&self) -> (r: &Vec<Vec<char>>)
        ensures
            names_view(r@) == self@.flags,
    {
        &self.flags
    }

    /// The tag names known so far.
    pub fn tags_names(&self) -> (r: &Vec<Vec<char>>)
        ensures
            names_view(r@) == self@.tags,
    {
        &self.tags
    }

    /// The attack type names known so far.
    pub fn attack_types_names(&self) -> (r: &Vec<Vec<char>>)
        ensures
            names_view(r@) == self@.attack_types,
    {
        &self.attack_types
    }

    /// The splash type names known so far.
    pub fn splash_types_names(&self) -> (r: &Vec<Vec<char>>)
        ensures
            names_view(r@) == self@.splash_types,
    {
        &self.splash_types
    }

    /// The index of attack type `s`; a new name is added at the end.
    pub fn register_attack_type(&mut self, s: &[char]) -> (r: usize)
        ensures
            (r as int, final(self)@) == ({
                let (i, ns) = spec_register(old(self)@.attack_types, s@);
                (i, LoaderNames { attack_types: ns, ..old(self)@ })
            }),
    {
        register_name(&mut self.attack_types, s)
    }

    /// The index of splash type `s`; a new name is added at the end.
    pub fn register_splash_type(&mut self, s: &[char]) -> (r: usize)
        ensures
            (r as int, final(self)@) == ({
                let (i, ns) = spec_register(old(self)@.splash_types, s@);
                (i, LoaderNames { splash_types: ns, ..old(self)@ })
            }),
    {
        register_name(&mut self.splash_types, s)
    }

    /// Adds names at the end of the list of `kind`, as they come, repeats
    /// included.
    pub fn add_names(&mut self, kind: NameKind, added: &Vec<String>)
        ensures
            final(self)@ == spec_add_names(old(self)@, kind, strings_view(added@)),
    {
        match kind {
            NameKind::MovementType => push_names(&mut self.movement_types, added),
            NameKind::UnitType => push_names(&mut self.unit_types, added),
            NameKind::TerrainType => push_names(&mut self.terrain_types, added),
            NameKind::TokenType => push_names(&mut self.token_types, added),
            NameKind::CommanderType => push_names(&mut self.commander_types, added),
            NameKind::HeroType => push_names(&mut self.hero_types, added),
            NameKind::Flag => push_names(&mut self.flags, added),
            NameKind::Tag => push_names(&mut self.tags, added),
        }
    }

    /// The effect names known so far.
    pub fn effects_names(&self) -> (r: &Vec<Vec<char>>)
        ensures
            names_view(r@) == self@.effects,
    {
        &self.effects
    }

    fn registered(&self, file: &[char], name: &[char], min: usize, max: usize) -> (r: Option<usize>)
        ensures
            r matches Some(k) ==> registered_function(self@.rhai_functions, file@, name@, min as nat, max as nat) == Some(k as int)
                && k < self@.rhai_functions.len(),
            r is None ==> registered_function(self@.rhai_functions, file@, name@, min as nat, max as nat) is None,
    {
        let ghost fs = self@.rhai_functions;
        let mut k: usize = 0;
        while k < self.rhai_functions.len()
            invariant
                k <= self.rhai_functions.len(),
                fs == self@.rhai_functions,
                fs.len() == self.rhai_functions.len(),
                registered_function(fs.take(k as int), file@, name@, min as nat, max as nat) is None,
            decreases self.rhai_functions.len() - k,
        {
            assert(fs.take(k + 1).drop_last() =~= fs.take(k as int));
            let f = &self.rhai_functions[k];
            assert(fs[k as int] == (f.0@, f.1@, f.2 as nat));
            if text_eq(f.0.as_slice(), file) && text_eq(f.1.as_slice(), name) && min <= f.2 && f.2 <= max {
                proof {
                    lemma_registered_prefix(fs, k as int, file@, name@, min as nat, max as nat);
                }
                return Some(k);
            }
            k += 1;
        }
        assert(fs.take(fs.len() as int) =~= fs);
        None
    }

    fn script(&self, file: &[char]) -> (r: Option<&Result<Vec<(Vec<char>, usize)>, ConfigParseError>>)
        ensures
            r matches Some(res) ==> find_script(self@.scripts, file@) == Some(match *res {
                Ok(fs) => Ok(functions_view(fs@)),
                Err(e) => Err(e@),
            }),
            r is None ==> find_script(self@.scripts, file@) is None,
    {
        let ghost ss = self@.scripts;
        let mut k: usize = 0;
        assert(ss.skip(0) =~= ss);
        while k < self.scripts.len()
            invariant
                k <= self.scripts.len(),
                ss == self@.scripts,
                ss.len() == self.scripts.len(),
                find_script(ss, file@) == find_script(ss.skip(k as int), file@),
            decreases self.scripts.len() - k,
        {
            assert(ss.skip(k as int).drop_first() =~= ss.skip(k + 1));
            assert(ss[k as int] == script_view(self.scripts[k as int]));
            if text_eq(self.scripts[k].filename.as_slice(), file) {
                return Some(&self.scripts[k].functions);
            }
            k += 1;
        }
        None
    }

    /// Whether the script file `file` is there and compiled: see
    /// `spec_check_script`.
    pub fn check_script(&self, file: &[char]) -> (r: Result<(), ConfigParseError>)
        ensures
            match r {
                Ok(_) => spec_check_script(self@, file@) == Ok::<(), ConfigError>(()),
                Err(e) => spec_check_script(self@, file@) == Err::<(), ConfigError>(e@),
            },
    {
        match self.script(file) {
            None => Err(ConfigParseError::FileMissing(script_path(file))),
            Some(Err(e)) => Err(e.duplicate()),
            Some(Ok(_)) => Ok(()),
        }
    }

    /// Looks up the script function `reference`, written "file > function",
    /// that takes between `min` and `max` parameters; a function found in a
    /// script file for the first time is registered at the end.
    pub fn rhai_function(&mut self, reference: &[char], min: usize, max: usize) -> (r: Result<FunctionPointer, ConfigParseError>)
        ensures
            match spec_rhai_function(old(self)@, reference@, min as nat, max as nat) {
                Ok((p, registers)) => r == Ok::<FunctionPointer, ConfigParseError>(p) && if registers {
                    final(self)@ == (LoaderNames {
                        rhai_functions: old(self)@.rhai_functions.push((
                            spec_trim(reference@.take(first_arrow(reference@)->0)),
                            spec_trim(reference@.skip(first_arrow(reference@)->0 + 1)),
                            p.parameter_count as nat,
                        )),
                        ..old(self)@
                    })
                } else {
                    final(self)@ == old(self)@
                },
                Err(e) => r matches Err(e2) && e2@ == e && final(self)@ == old(self)@,
            },
            (fp_result(r), final(self)@) == spec_rhai_step(old(self)@, reference@, min as nat, max as nat),
    {
        let i = match find_arrow(reference) {
            None => return Err(ConfigParseError::ScriptNeedsFileAndFunctionName(to_string(reference))),
            Some(i) => i,
        };
        assert(i < reference.len());
        let file = trim(prefix(reference, i));
        let name = trim(suffix(reference, i + 1));
        if text_eq(file, &GLOBAL_SCRIPT) {
            return Err(ConfigParseError::DontCallGlobalScriptDirectly(to_string(name)));
        }
        if let Some(k) = self.registered(file, name, min, max) {
            return Ok(FunctionPointer { index: k, parameter_count: self.rhai_functions[k].2 });
        }
        let ghost fsv: Seq<(Seq<char>, nat)>;
        let found = match self.script(file) {
            None => return Err(ConfigParseError::FileMissing(script_path(file))),
            Some(Err(e)) => return Err(e.duplicate()),
            Some(Ok(fs)) => {
                proof {
                    fsv = functions_view(fs@);
                }
                Self::find_in(fs, name, min, max)
            },
        };
        assert(find_script(self@.scripts, file@) == Some(Ok::<Seq<(Seq<char>, nat)>, ConfigError>(fsv)));
        match found {
            None => {
                Err(ConfigParseError::ScriptFunctionNotFound(to_string(file), to_string(name)))
            },
            Some(pc) => {
                let index = self.rhai_functions.len();
                let ghost before = self.rhai_functions@;
                self.rhai_functions.push((crate::config::text::to_vec(file), crate::config::text::to_vec(name), pc));
                assert(self@.rhai_functions =~= old(self)@.rhai_functions.push((file@, name@, pc as nat)));
                Ok(FunctionPointer { index, parameter_count: pc })
            },
        }
    }

    /// Ends the loading: the script files that the registered functions
    /// come from, each once in the order of their first use, and for every
    /// registered function, in order, the position of its file in that list
    /// and its name.
    pub fn finish(self) -> (r: (Vec<Vec<char>>, Vec<(usize, Vec<char>)>))
        ensures
            names_view(r.0@) == used_files(self@.rhai_functions),
            r.1@.len() == self@.rhai_functions.len(),
            forall|k: int| 0 <= k < r.1@.len() ==> first_named(names_view(r.0@), self@.rhai_functions[k].0) == Some((#[trigger] r.1@[k]).0 as int)
                && r.1@[k].1@ == self@.rhai_functions[k].1,
    {
        let ghost fs = self@.rhai_functions;
        let mut files: Vec<Vec<char>> = Vec::new();
        let mut functions: Vec<(usize, Vec<char>)> = Vec::new();
        let mut k: usize = 0;
        assert(fs.take(0) =~= seq![]);
        assert(names_view(files@) =~= seq![]);
        while k < self.rhai_functions.len()
            invariant
                k <= self.rhai_functions@.len(),
                fs == self@.rhai_functions,
                fs.len() == self.rhai_functions@.len(),
                names_view(files@) == used_files(fs.take(k as int)),
                functions@.len() == k,
                forall|j: int| 0 <= j < k ==> first_named(names_view(files@), fs[j].0) == Some((#[trigger] functions@[j]).0 as int)
                    && functions@[j].1@ == fs[j].1,
            decreases self.rhai_functions.len() - k,
        {
            let ghost before = names_view(files@);
            let ghost functions_before = functions@;
            assert(fs.take(k + 1).drop_last() =~= fs.take(k as int));
            let entry = &self.rhai_functions[k];
            assert(fs[k as int] == (entry.0@, entry.1@, entry.2 as nat));
            let file = entry.0.as_slice();
            let i = match position_of(&files, file) {
                Some(i) => i,
                None => {
                    let n = files.len();
                    files.push(to_vec(file));
                    assert(names_view(files@) =~= before.push(file@));
                    n
                },
            };
            proof {
                lemma_first_named_push(before, file@, file@);
                assert forall|j: int| 0 <= j < k implies first_named(names_view(files@), fs[j].0) == first_named(before, fs[j].0) by {
                    assert(first_named(before, fs[j].0) == Some(functions@[j].0 as int));
                    lemma_first_named_push(before, fs[j].0, file@);
                }
            }
            functions.push((i, to_vec(entry.1.as_slice())));
            proof {
                assert forall|j: int| 0 <= j < k + 1 implies first_named(names_view(files@), fs[j].0) == Some((#[trigger] functions@[j]).0 as int)
                    && functions@[j].1@ == fs[j].1 by {
                    if j < k {
                        assert(functions@[j] == functions_before[j]);
                    }
                }
            }
            k += 1;
        }
        assert(fs.take(fs.len() as int) =~= fs);
        (files, functions)
    }

    fn find_in(fs: &Vec<(Vec<char>, usize)>, name: &[char], min: usize, max: usize) -> (r: Option<usize>)
        ensures
            r matches Some(pc) ==> find_function(functions_view(fs@), name@, min as nat, max as nat) == Some(pc as nat),
            r is None ==> find_function(functions_view(fs@), name@, min as nat, max as nat) is None,
    {
        let ghost v = functions_view(fs@);
        let mut k: usize = 0;
        assert(v.skip(0) =~= v);
        while k < fs.len()
            invariant
                k <= fs.len(),
                v == functions_view(fs@),
                find_function(v, name@, min as nat, max as nat) == find_function(v.skip(k as int), name@, min as nat, max as nat),
            decreases fs.len() - k,
        {
            assert(v.skip(k as int).drop_first() =~= v.skip(k + 1));
            if text_eq(fs[k].0.as_slice(), name) && min <= fs[k].1 && fs[k].1 <= max {
                return Some(fs[k].1);
            }
            k += 1;
        }
        None
    }
}

/// The script files that the registered functions `fs` come from, each
/// once, in the order in which the first function of each was registered.
pub open spec fn used_files(fs: Seq<(Seq<char>, Seq<char>, nat)>) -> Seq<Seq<char>>
    decreases fs.len(),
{
    if fs.len() == 0 {
        seq![]
    } else {
        let prev = used_files(fs.drop_last());
        if first_named(prev, fs.last().0) is Some {
            prev
        } else {
            prev.push(fs.last().0)
        }
    }
}

/// Every script file that a registered function comes from is listed once.
pub proof fn lemma_used_files_unique(fs: Seq<(Seq<char>, Seq<char>, nat)>)
    ensures
        forall|i: int, j: int| 0 <= i < j < used_files(fs).len() ==> used_files(fs)[i] != used_files(fs)[j],
        forall|k: int| 0 <= k < fs.len() ==> first_named(used_files(fs), (#[trigger] fs[k]).0) is Some,
    decreases fs.len(),
{
    if fs.len() > 0 {
        let prev = used_files(fs.drop_last());
        lemma_used_files_unique(fs.drop_last());
        let f = fs.last().0;
        crate::config::listing::lemma_first_named_from(prev, f, 0);
        assert forall|k: int| 0 <= k < fs.len() implies first_named(used_files(fs), (#[trigger] fs[k]).0) is Some by {
            if k < fs.len() - 1 {
                assert(fs[k] == fs.drop_last()[k]);
                lemma_first_named_push(prev, fs[k].0, f);
            } else {
                lemma_first_named_push(prev, f, f);
            }
        }
    }
}

/// Adding a name at the end keeps the position of every name found before,
/// and a name not found before is found at the end.
proof fn lemma_first_named_push(names: Seq<Seq<char>>, x: Seq<char>, y: Seq<char>)
    ensures
        first_named(names, x) is Some ==> first_named(names.push(y), x) == first_named(names, x),
        first_named(names, y) is None ==> first_named(names.push(y), y) == Some(names.len() as int),
{
    let after = names.push(y);
    crate::config::listing::lemma_first_named_from(names, x, 0);
    crate::config::listing::lemma_first_named_from(after, x, 0);
    crate::config::listing::lemma_first_named_from(names, y, 0);
    crate::config::listing::lemma_first_named_from(after, y, 0);
    if first_named(names, x) is Some {
        let k = first_named(names, x)->0;
        assert(after[k] == x);
        let k2 = first_named(after, x)->0;
        if k2 < k {
            assert(after[k2] == names[k2]);
        }
    }
    if first_named(names, y) is None {
        assert(after[names.len() as int] == y);
        let k2 = first_named(after, y)->0;
        if k2 < names.len() {
            assert(after[k2] == names[k2]);
        }
    }
}

proof fn lemma_registered_prefix(
    fs: Seq<(Seq<char>, Seq<char>, nat)>,
    k: int,
    file: Seq<char>,
    name: Seq<char>,
    min: nat,
    max: nat,
)
    requires
        0 <= k < fs.len(),
        registered_function(fs.take(k), file, name, min, max) is None,
        fs[k].0 == file && fs[k].1 == name && min <= fs[k].2 <= max,
    ensures
        registered_function(fs, file, name, min, max) == Some(k),
    decreases fs.len(),
{
    if k == fs.len() - 1 {
        assert(fs.drop_last() =~= fs.take(k));
    } else {
        assert(fs.drop_last().take(k) =~= fs.take(k));
        lemma_registered_prefix(fs.drop_last(), k, file, name, min, max);
    }
}

} // verus!
