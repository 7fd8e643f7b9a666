use crate::ast::{FunctionDefinition, Parameter, Statement};
use vstd::prelude::*;

verus! {

/// The name that marks a function as the program's entry point.
pub const MAIN_FUNCTION: &'static str = "main";

/// Whether a function of this name is the entry point.
pub open spec fn is_entry_name(name: Seq<char>) -> bool {
    name == "main"@
}

/// The names of the parameters, in order.
pub open spec fn parameter_names(params: Seq<Parameter>) -> Seq<Seq<char>> {
    params.map_values(|p: Parameter| p.name@)
}

/// The views of a sequence of strings.
pub open spec fn string_views(names: Seq<String>) -> Seq<Seq<char>> {
    names.map_values(|s: String| s@)
}

/// `after` is `before` with the constrained function `func` added.
pub open spec fn constraint_pushed(before: Program, func: FunctionDefinition, after: Program) -> bool {
    &&& after.statements@ == before.statements@
    &&& after.directives@ == before.directives@
    &&& after.custom_directives@ == before.custom_directives@
    &&& if is_entry_name(func.name@) {
        after.main == Some(func) && after.functions@ == before.functions@
    } else {
        after.main == before.main && after.functions@ == before.functions@.push(func)
    }
}

/// `after` is `before` with the directive `func` added, under `name` if any.
pub open spec fn directive_pushed(
    before: Program,
    name: Option<String>,
    func: FunctionDefinition,
    after: Program,
) -> bool {
    &&& after.statements@ == before.statements@
    &&& after.functions@ == before.functions@
    &&& after.main == before.main
    &&& match name {
        Some(n) => after.custom_directives@ == before.custom_directives@.push((n, func))
            && after.directives@ == before.directives@,
        None => after.directives@ == before.directives@.push(func)
            && after.custom_directives@ == before.custom_directives@,
    }
}

/// The call interface of a program: the parameter names of its entry point,
/// if it has one.
pub open spec fn abi_of(p: Program) -> Option<Seq<Seq<char>>> {
    match p.main {
        None => None,
        Some(f) => Some(parameter_names(f.parameters@)),
    }
}

/// A program as one parsing pass builds it: its statements, its constrained
/// functions, at most one entry point, and its unnamed and named directives.
pub struct Program {
    pub statements: Vec<Statement>,
    pub functions: Vec<FunctionDefinition>,
    pub directives: Vec<FunctionDefinition>,
    pub custom_directives: Vec<(String, FunctionDefinition)>,
    pub main: Option<FunctionDefinition>,
}

impl Program {
    /// Whether the program holds nothing.
    pub open spec fn is_empty(self) -> bool {
        &&& self.statements@.len() == 0
        &&& self.functions@.len() == 0
        &&& self.directives@.len() == 0
        &&& self.custom_directives@.len() == 0
        &&& self.main is None
    }

    /// An empty program.
    pub fn new() -> (r: Program)
        ensures
            r.is_empty(),
    {
        Program::with_capacity(0)
    }

    /// An empty program with room reserved for `cap` items in each sequence.
    pub fn with_capacity(cap: usize) -> (r: Program)
        ensures
            r.is_empty(),
    {
        Program {
            statements: Vec::with_capacity(cap),
            custom_directives: Vec::with_capacity(cap),
            directives: Vec::with_capacity(cap),
            functions: Vec::with_capacity(cap),
            main: None,
        }
    }

    /// Appends a statement.
    pub fn push_statement(&mut self, stmt: Statement)
        ensures
            final(self).statements@ == old(self).statements@.push(stmt),
            final(self).functions@ == old(self).functions@,
            final(self).directives@ == old(self).directives@,
            final(self).custom_directives@ == old(self).custom_directives@,
            final(self).main == old(self).main,
    {
        self.statements.push(stmt)
    }

    /// Adds a constrained function: one named `main` takes the entry point's
    /// place, replacing any entry point there was; any other is appended to
    /// the functions.
    pub fn push_constraint_function(&mut self, func: FunctionDefinition)
        ensures
            constraint_pushed(*old(self), func, *final(self)),
    {
        let entry = MAIN_FUNCTION.to_string();
        proof {
            reveal_strlit("main");
        }
        if func.name == entry {
            self.main = Some(func)
        } else {
            self.functions.push(func);
        }
    }

    /// Adds a directive: an unnamed one to the directives, a named one with
    /// its name to the custom directives.
    pub fn push_directive_function(&mut self, name: Option<String>, func: FunctionDefinition)
        ensures
            directive_pushed(*old(self), name, func, *final(self)),
    {
        match name {
            Some(name) => self.custom_directives.push((name, func)),
            None => self.directives.push(func),
        }
    }

    /// The names of the entry point's parameters, in order; none when the
    /// program has no entry point.
    pub fn abi(&self) -> (r: Option<Vec<String>>)
        ensures
            match r {
                None => abi_of(*self) is None,
                Some(v) => abi_of(*self) == Some(string_views(v@)),
            },
    {
        match &self.main {
            Some(main_func) => {
                let mut abi: Vec<String> = Vec::new();
                let mut i: usize = 0;
                while i < main_func.parameters.len()
                    invariant
                        i <= main_func.parameters@.len(),
                        abi@.len() == i,
                        string_views(abi@) == parameter_names(main_func.parameters@.take(i as int)),
                    decreases main_func.parameters@.len() - i,
                {
                    let ghost prev = abi@;
                    let name = main_func.parameters[i].name.clone();
                    abi.push(name);
                    proof {
                        let done = main_func.parameters@.take(i as int);
                        assert forall|j: int| 0 <= j < i implies string_views(abi@)[j]
                            == parameter_names(main_func.parameters@.take(i + 1))[j] by {
                            assert(string_views(prev)[j] == parameter_names(done)[j]);
                        }
                    }
                    i = i + 1;
                    assert(string_views(abi@) =~= parameter_names(
                        main_func.parameters@.take(i as int),
                    ));
                }
                assert(main_func.parameters@.take(i as int) == main_func.parameters@);
                Some(abi)
            },
            None => None,
        }
    }
}

/// Of two constrained functions named `main` pushed in turn, the second
/// holds the entry point, and neither is among the other functions.
pub proof fn lemma_entry_last_write_wins(
    first: Program,
    f: FunctionDefinition,
    second: Program,
    g: FunctionDefinition,
    third: Program,
)
    requires
        is_entry_name(f.name@),
        is_entry_name(g.name@),
        constraint_pushed(first, f, second),
        constraint_pushed(second, g, third),
    ensures
        third.main == Some(g),
        third.functions@ == first.functions@,
{
}

/// A program that holds nothing has no call interface.
pub proof fn lemma_empty_has_no_abi(p: Program)
    requires
        p.is_empty(),
    ensures
        abi_of(p) is None,
{
}

/// An unnamed directive goes to the directives alone, and a named one to the
/// custom directives alone; nothing else changes.
pub proof fn lemma_directive_destinations(
    before: Program,
    name: Option<String>,
    func: FunctionDefinition,
    after: Program,
)
    requires
        directive_pushed(before, name, func, after),
    ensures
        after.statements@ == before.statements@,
        after.functions@ == before.functions@,
        after.main == before.main,
        name is None ==> after.directives@ == before.directives@.push(func)
            && after.custom_directives@ == before.custom_directives@,
        name is Some ==> after.custom_directives@ == before.custom_directives@.push(
            (name->Some_0, func),
        ) && after.directives@ == before.directives@,
{
}

} // verus!
