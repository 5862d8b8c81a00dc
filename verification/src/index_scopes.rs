//! Simplified scope implementation used for indexing.
//!
//! While a program is indexed, a stack of levels follows the nesting of its
//! scopes, closures and functions. Declaring a variable enters it in the
//! innermost level. Using a variable looks for it from the innermost level
//! outwards, up to the nearest function: every closure that lies between
//! the use and the level that has the variable captures it. A `yield`
//! makes the nearest function or closure a generator.

use vstd::prelude::*;
use vstd::string::*;
use crate::object::{
    distinct_keys, lemma_position, lemma_position_is, lemma_with_entry_distinct, position,
    with_entry,
};
use crate::span::Span;

verus! {

/// What went wrong inside the compiler.
#[derive(Clone, Copy, Debug, PartialEq, Eq, Structural)]
pub enum InternalError {
    /// A variable was declared while no scope was open.
    EmptyScopes,
    /// A scope was closed while none was open.
    MissingScope,
    /// A closure was closed while the innermost level was none.
    ExpectedClosure,
    /// A function was closed while the innermost level was none.
    ExpectedFunction,
}

/// An error of the compiler.
#[derive(Clone, Copy, Debug, PartialEq, Eq, Structural)]
pub enum CompileError {
    /// The compiler itself is at fault.
    Internal { error: InternalError, span: Span },
    /// A `yield` stands outside of every function and closure.
    YieldOutsideFunction { span: Span },
}

impl CompileError {
    /// An error that the compiler itself is at fault for.
    pub fn internal(error: InternalError, span: Span) -> (result: CompileError)
        ensures
            result == (CompileError::Internal { error, span }),
    {
        CompileError::Internal { error, span }
    }
}

/// A variable that a closure takes from the scopes around it.
#[derive(Debug, PartialEq)]
pub struct MetaClosureCapture {
    /// The name of the variable.
    pub ident: String,
}

/// What is known of a function once it was indexed.
#[derive(Debug, PartialEq)]
pub struct Function {
    /// Whether the function yields.
    pub generator: bool,
}

/// What is known of a closure once it was indexed.
#[derive(Debug, PartialEq)]
pub struct Closure {
    /// The variables that the closure captures, in the order of their first
    /// use.
    pub captures: Vec<MetaClosureCapture>,
    /// Whether the closure yields.
    pub generator: bool,
}

/// The names of a sequence of captures.
pub open spec fn capture_names(captures: Seq<MetaClosureCapture>) -> Seq<Seq<char>> {
    Seq::new(captures.len(), |i: int| captures[i].ident@)
}

/// One level of the scope stack, as contracts speak of it.
pub enum LevelView {
    /// A plain scope with its variables.
    Scope { locals: Seq<(Seq<char>, Span)> },
    /// A closure: the variables it has captured, the names it has already
    /// captured, the variables of its own scope, and whether it yields.
    Closure {
        captures: Seq<Seq<char>>,
        existing: Seq<Seq<char>>,
        locals: Seq<(Seq<char>, Span)>,
        generator: bool,
    },
    /// A function: the variables of its own scope, and whether it yields.
    Function { locals: Seq<(Seq<char>, Span)>, generator: bool },
}

impl LevelView {
    /// A plain scope without variables.
    pub open spec fn scope() -> LevelView {
        LevelView::Scope { locals: Seq::empty() }
    }

    /// A closure that has no variables, has captured nothing and does not
    /// yield.
    pub open spec fn closure() -> LevelView {
        LevelView::Closure {
            captures: Seq::empty(),
            existing: Seq::empty(),
            locals: Seq::empty(),
            generator: false,
        }
    }

    /// A function that has no variables and does not yield.
    pub open spec fn function() -> LevelView {
        LevelView::Function { locals: Seq::empty(), generator: false }
    }

    /// The variables of the level's own scope.
    pub open spec fn locals(self) -> Seq<(Seq<char>, Span)> {
        match self {
            LevelView::Scope { locals } => locals,
            LevelView::Closure { locals, .. } => locals,
            LevelView::Function { locals, .. } => locals,
        }
    }

    /// Whether a use of `name` finds the variable at this level: in the
    /// level's own scope or, at a closure, among the names it has captured.
    pub open spec fn has(self, name: Seq<char>) -> bool {
        ||| position(self.locals(), name) is Some
        ||| self matches LevelView::Closure { existing, .. } && existing.contains(name)
    }

    /// The level after `name` was declared in it.
    pub open spec fn declared(self, name: Seq<char>, span: Span) -> LevelView {
        match self {
            LevelView::Scope { locals } => LevelView::Scope {
                locals: with_entry(locals, name, span),
            },
            LevelView::Closure { captures, existing, locals, generator } => LevelView::Closure {
                captures,
                existing,
                locals: with_entry(locals, name, span),
                generator,
            },
            LevelView::Function { locals, generator } => LevelView::Function {
                locals: with_entry(locals, name, span),
                generator,
            },
        }
    }

    /// The level after it captured `name`, if it is a closure. Any other
    /// level stays as it is.
    pub open spec fn captured(self, name: Seq<char>) -> LevelView {
        match self {
            LevelView::Closure { captures, existing, locals, generator } => LevelView::Closure {
                captures: captures.push(name),
                existing: existing.push(name),
                locals,
                generator,
            },
            other => other,
        }
    }

    /// The level after a `yield` made it a generator, if it is a function or
    /// a closure.
    pub open spec fn yielding(self) -> LevelView {
        match self {
            LevelView::Closure { captures, existing, locals, .. } => LevelView::Closure {
                captures,
                existing,
                locals,
                generator: true,
            },
            LevelView::Function { locals, .. } => LevelView::Function { locals, generator: true },
            other => other,
        }
    }
}

/// The level at which a use of `name` finds the variable, looking from
/// level `upto - 1` outwards. The search ends at the first level that has
/// the variable, and at the first function whether it has it or not.
pub open spec fn found_at(levels: Seq<LevelView>, name: Seq<char>, upto: nat) -> Option<nat>
    decreases upto,
{
    if upto == 0 {
        None
    } else if levels[upto - 1].has(name) {
        Some((upto - 1) as nat)
    } else if levels[upto - 1] is Function {
        None
    } else {
        found_at(levels, name, (upto - 1) as nat)
    }
}

/// The levels after a use of `name`: where the variable is found, every
/// closure inside the level that has it captures it.
pub open spec fn marked_use(levels: Seq<LevelView>, name: Seq<char>) -> Seq<LevelView> {
    match found_at(levels, name, levels.len()) {
        Some(found) => Seq::new(
            levels.len(),
            |i: int|
                if i > found {
                    levels[i].captured(name)
                } else {
                    levels[i]
                },
        ),
        None => levels,
    }
}

/// The nearest function or closure, looking from level `upto - 1`
/// outwards.
pub open spec fn generator_at(levels: Seq<LevelView>, upto: nat) -> Option<nat>
    decreases upto,
{
    if upto == 0 {
        None
    } else if levels[upto - 1] is Scope {
        generator_at(levels, (upto - 1) as nat)
    } else {
        Some((upto - 1) as nat)
    }
}

/// A variable of a scope.
#[derive(Debug)]
struct Local {
    name: String,
    span: Span,
}

/// A scope: the variables that were declared in it.
#[derive(Debug)]
pub struct IndexScope {
    locals: Vec<Local>,
}

impl View for IndexScope {
    type V = Seq<(Seq<char>, Span)>;

    closed spec fn view(&self) -> Seq<(Seq<char>, Span)> {
        Seq::new(self.locals@.len(), |i: int| (self.locals@[i].name@, self.locals@[i].span))
    }
}

impl IndexScope {
    /// Construct a new scope.
    pub fn new() -> (scope: IndexScope)
        ensures
            scope@ == Seq::<(Seq<char>, Span)>::empty(),
    {
        IndexScope { locals: Vec::new() }
    }

    /// The position of the variable `name`.
    fn find(&self, name: &String) -> (found: Option<usize>)
        ensures
            match found {
                Some(i) => position(self@, name@) == Some(i as int) && i < self@.len(),
                None => position(self@, name@) is None,
            },
    {
        let mut i: usize = 0;
        while i < self.locals.len()
            invariant
                i <= self.locals@.len(),
                forall|j: int| 0 <= j < i ==> (#[trigger] self@[j]).0 != name@,
            decreases self.locals@.len() - i,
        {
            if self.locals[i].name == *name {
                proof {
                    lemma_position_is(self@, name@, i as int);
                }
                return Some(i);
            }
            i = i + 1;
        }
        proof {
            lemma_position(self@, name@);
        }
        None
    }

    /// Whether the variable `name` was declared in this scope.
    pub fn declares(&self, name: &String) -> (found: bool)
        ensures
            found == position(self@, name@).is_some(),
    {
        self.find(name).is_some()
    }

    /// Declare the variable `name`. A variable of that name that the scope
    /// has already gets the new span: the scope holds no variable twice.
    pub fn declare(&mut self, name: String, span: Span)
        ensures
            final(self)@ == with_entry(old(self)@, name@, span),
            distinct_keys(old(self)@) ==> distinct_keys(final(self)@),
    {
        proof {
            if distinct_keys(self@) {
                lemma_with_entry_distinct(self@, name@, span);
            }
        }
        match self.find(&name) {
            Some(i) => {
                self.locals[i].span = span;
                assert(self@ =~= old(self)@.update(i as int, (name@, span))) by {
                    lemma_position(old(self)@, name@);
                }
            },
            None => {
                self.locals.push(Local { name, span });
                assert(self@ =~= old(self)@.push((name@, span)));
            },
        }
    }
}

/// A closure boundary, with the first scope inside of the closure.
#[derive(Debug)]
pub struct IndexClosure {
    /// Variables which could not be found in the immediate scope, and
    /// marked as needed to be captured from the outer scope.
    captures: Vec<MetaClosureCapture>,
    existing: Vec<String>,
    scope: IndexScope,
    generator: bool,
}

impl View for IndexClosure {
    type V = LevelView;

    closed spec fn view(&self) -> LevelView {
        LevelView::Closure {
            captures: capture_names(self.captures@),
            existing: Seq::new(self.existing@.len(), |i: int| self.existing@[i]@),
            locals: self.scope@,
            generator: self.generator,
        }
    }
}

impl IndexClosure {
    /// Construct a new closure.
    pub fn new() -> (closure: IndexClosure)
        ensures
            closure@ == LevelView::closure(),
    {
        let closure = IndexClosure {
            captures: Vec::new(),
            existing: Vec::new(),
            scope: IndexScope::new(),
            generator: false,
        };
        assert(capture_names(closure.captures@) =~= Seq::<Seq<char>>::empty());
        assert(closure@->existing =~= Seq::<Seq<char>>::empty());
        closure
    }

    /// Whether the closure has captured the variable `name`.
    fn has_captured(&self, name: &String) -> (found: bool)
        ensures
            found == self@->existing.contains(name@),
    {
        let mut i: usize = 0;
        while i < self.existing.len()
            invariant
                i <= self.existing@.len(),
                forall|j: int| 0 <= j < i ==> #[trigger] self@->existing[j] != name@,
            decreases self.existing@.len() - i,
        {
            if self.existing[i] == *name {
                assert(self@->existing[i as int] == name@);
                return true;
            }
            i = i + 1;
        }
        false
    }

    /// Capture the variable `name`.
    fn capture(&mut self, name: &String)
        ensures
            final(self)@ == old(self)@.captured(name@),
    {
        self.captures.push(MetaClosureCapture { ident: name.clone() });
        self.existing.push(name.clone());
        assert(capture_names(self.captures@) =~= capture_names(old(self).captures@).push(name@));
        assert(self@->existing =~= old(self)@->existing.push(name@));
    }
}

/// A function, with the first scope inside of the function.
#[derive(Debug)]
pub struct IndexFunction {
    scope: IndexScope,
    generator: bool,
}

impl View for IndexFunction {
    type V = LevelView;

    closed spec fn view(&self) -> LevelView {
        LevelView::Function { locals: self.scope@, generator: self.generator }
    }
}

impl IndexFunction {
    /// Construct a new function.
    pub fn new() -> (function: IndexFunction)
        ensures
            function@ == LevelView::function(),
    {
        IndexFunction { scope: IndexScope::new(), generator: false }
    }
}

/// One level of the scope stack.
#[derive(Debug)]
enum IndexScopeLevel {
    /// A regular index scope.
    IndexScope(IndexScope),
    /// A marker for a closure boundary.
    ///
    /// The scope is the first scope inside of the closure.
    IndexClosure(IndexClosure),
    /// A function (completely isolated scope-wise).
    IndexFunction(IndexFunction),
}

impl View for IndexScopeLevel {
    type V = LevelView;

    closed spec fn view(&self) -> LevelView {
        match self {
            IndexScopeLevel::IndexScope(scope) => LevelView::Scope { locals: scope@ },
            IndexScopeLevel::IndexClosure(closure) => closure@,
            IndexScopeLevel::IndexFunction(function) => function@,
        }
    }
}

impl IndexScopeLevel {
    /// Whether a use of `name` finds the variable at this level.
    fn has(&self, name: &String) -> (found: bool)
        ensures
            found == self@.has(name@),
    {
        match self {
            IndexScopeLevel::IndexScope(scope) => scope.declares(name),
            IndexScopeLevel::IndexClosure(closure) => closure.has_captured(name)
                || closure.scope.declares(name),
            IndexScopeLevel::IndexFunction(function) => function.scope.declares(name),
        }
    }
}

/// The token of a level that was pushed. Whoever holds it is to close the
/// level, with [`IndexScopeGuard::pop`], [`IndexScopeGuard::into_closure`]
/// or [`IndexScopeGuard::into_function`].
#[derive(Debug)]
pub struct IndexScopeGuard {
    /// The number of levels right after the level was pushed.
    pub depth: usize,
}

/// An indexing scope.
#[derive(Debug)]
pub struct IndexScopes {
    levels: Vec<IndexScopeLevel>,
}

impl View for IndexScopes {
    type V = Seq<LevelView>;

    closed spec fn view(&self) -> Seq<LevelView> {
        Seq::new(self.levels@.len(), |i: int| self.levels@[i]@)
    }
}

impl IndexScopes {
    /// Construct a new handler for indexing scopes: one plain scope is
    /// open.
    pub fn new() -> (scopes: IndexScopes)
        ensures
            scopes@ == seq![LevelView::scope()],
    {
        let mut levels: Vec<IndexScopeLevel> = Vec::new();
        levels.push(IndexScopeLevel::IndexScope(IndexScope::new()));
        let scopes = IndexScopes { levels };
        assert(scopes@ =~= seq![LevelView::scope()]);
        scopes
    }

    /// The number of open levels.
    pub fn len(&self) -> (len: usize)
        ensures
            len == self@.len(),
    {
        self.levels.len()
    }

    /// Declare the given variable in the last scope.
    pub fn declare(&mut self, var: &str, span: Span) -> (result: Result<(), CompileError>)
        ensures
            match result {
                Ok(()) => {
                    &&& old(self)@.len() > 0
                    &&& final(self)@ == old(self)@.update(
                        old(self)@.len() - 1,
                        old(self)@.last().declared(var@, span),
                    )
                },
                Err(error) => {
                    &&& old(self)@.len() == 0
                    &&& error == (CompileError::Internal { error: InternalError::EmptyScopes, span })
                    &&& final(self)@ == old(self)@
                },
            },
    {
        let len = self.levels.len();
        if len == 0 {
            return Err(CompileError::internal(InternalError::EmptyScopes, span));
        }
        let name = var.to_owned();
        match &mut self.levels[len - 1] {
            IndexScopeLevel::IndexScope(scope) => {
                scope.declare(name, span);
            },
            IndexScopeLevel::IndexClosure(closure) => {
                closure.scope.declare(name, span);
            },
            IndexScopeLevel::IndexFunction(function) => {
                function.scope.declare(name, span);
            },
        }
        assert(self@ =~= old(self)@.update(
            old(self)@.len() - 1,
            old(self)@.last().declared(var@, span),
        ));
        Ok(())
    }

    /// The level at which a use of `name` finds the variable.
    fn find_use(&self, name: &String) -> (found: Option<usize>)
        ensures
            match found {
                Some(level) => found_at(self@, name@, self@.len()) == Some(level as nat) && level
                    < self@.len(),
                None => found_at(self@, name@, self@.len()) is None,
            },
    {
        let mut i: usize = self.levels.len();
        while i > 0
            invariant
                i <= self.levels@.len(),
                found_at(self@, name@, self@.len()) == found_at(self@, name@, i as nat),
            decreases i,
        {
            let level = &self.levels[i - 1];
            assert(self@[i - 1] == level@);
            if level.has(name) {
                return Some(i - 1);
            }
            if let IndexScopeLevel::IndexFunction(_) = level {
                return None;
            }
            i = i - 1;
        }
        None
    }

    /// Mark that the given variable is used.
    pub fn mark_use(&mut self, var: &str)
        ensures
            final(self)@ == marked_use(old(self)@, var@),
    {
        let name = var.to_owned();
        let found = match self.find_use(&name) {
            Some(found) => found,
            None => {
                return ;
            },
        };
        let len = self.levels.len();
        assert(self@.len() == len);
        let mut i: usize = found + 1;
        while i < self.levels.len()
            invariant
                found < i <= self.levels@.len(),
                self.levels@.len() == old(self).levels@.len(),
                name@ == var@,
                forall|j: int|
                    0 <= j < self@.len() ==> #[trigger] self@[j] == if found < j < i {
                        old(self)@[j].captured(name@)
                    } else {
                        old(self)@[j]
                    },
            decreases self.levels@.len() - i,
        {
            let ghost before = self@;
            match &mut self.levels[i] {
                IndexScopeLevel::IndexClosure(closure) => {
                    closure.capture(&name);
                },
                _ => {},
            }
            proof {
                assert forall|j: int| 0 <= j < self@.len() implies #[trigger] self@[j] == if found
                    < j < i + 1 {
                    old(self)@[j].captured(name@)
                } else {
                    old(self)@[j]
                } by {
                    if j != i {
                        assert(self@[j] == before[j]);
                    }
                }
            }
            i = i + 1;
        }
        assert(self@ =~= marked_use(old(self)@, var@));
    }

    /// Mark that a yield was used, meaning the encapsulating function is a
    /// generator.
    pub fn mark_yield(&mut self, span: Span) -> (result: Result<(), CompileError>)
        ensures
            match generator_at(old(self)@, old(self)@.len()) {
                Some(level) => result is Ok && final(self)@ == old(self)@.update(
                    level as int,
                    old(self)@[level as int].yielding(),
                ),
                None => result == Err::<(), CompileError>(
                    CompileError::YieldOutsideFunction { span },
                ) && final(self)@ == old(self)@,
            },
    {
        let mut i: usize = self.levels.len();
        while i > 0
            invariant
                i <= self.levels@.len(),
                self@ == old(self)@,
                generator_at(self@, self@.len()) == generator_at(self@, i as nat),
            decreases i,
        {
            let ghost before = self@;
            assert(before[i - 1] == self.levels@[i - 1]@);
            match &mut self.levels[i - 1] {
                IndexScopeLevel::IndexFunction(function) => {
                    function.generator = true;
                    assert(self@ =~= before.update(i - 1, before[i - 1].yielding()));
                    return Ok(());
                },
                IndexScopeLevel::IndexClosure(closure) => {
                    closure.generator = true;
                    assert(self@ =~= before.update(i - 1, before[i - 1].yielding()));
                    return Ok(());
                },
                IndexScopeLevel::IndexScope(_) => {},
            }
            assert(self@ =~= before);
            i = i - 1;
        }
        Err(CompileError::YieldOutsideFunction { span })
    }

    /// Push a function.
    pub fn push_function(&mut self) -> (guard: IndexScopeGuard)
        ensures
            final(self)@ == old(self)@.push(LevelView::function()),
            guard.depth == final(self)@.len(),
    {
        self.levels.push(IndexScopeLevel::IndexFunction(IndexFunction::new()));
        assert(self@ =~= old(self)@.push(LevelView::function()));
        IndexScopeGuard { depth: self.levels.len() }
    }

    /// Push a closure boundary.
    pub fn push_closure(&mut self) -> (guard: IndexScopeGuard)
        ensures
            final(self)@ == old(self)@.push(LevelView::closure()),
            guard.depth == final(self)@.len(),
    {
        self.levels.push(IndexScopeLevel::IndexClosure(IndexClosure::new()));
        assert(self@ =~= old(self)@.push(LevelView::closure()));
        IndexScopeGuard { depth: self.levels.len() }
    }

    /// Push a new scope.
    pub fn push_scope(&mut self) -> (guard: IndexScopeGuard)
        ensures
            final(self)@ == old(self)@.push(LevelView::scope()),
            guard.depth == final(self)@.len(),
    {
        self.levels.push(IndexScopeLevel::IndexScope(IndexScope::new()));
        assert(self@ =~= old(self)@.push(LevelView::scope()));
        IndexScopeGuard { depth: self.levels.len() }
    }
}

impl IndexScopeGuard {
    /// Close the innermost level. Returns whether there was one.
    pub fn pop(self, scopes: &mut IndexScopes) -> (existed: bool)
        ensures
            existed == (old(scopes)@.len() > 0),
            final(scopes)@ == if existed {
                old(scopes)@.drop_last()
            } else {
                old(scopes)@
            },
    {
        let existed = scopes.levels.pop().is_some();
        assert(scopes@ =~= if existed {
            old(scopes)@.drop_last()
        } else {
            old(scopes)@
        });
        existed
    }

    /// Pop the last closure scope and return captured variables.
    pub fn into_closure(self, scopes: &mut IndexScopes, span: Span) -> (result: Result<
        Closure,
        CompileError,
    >)
        ensures
            old(scopes)@.len() > 0 ==> final(scopes)@ == old(scopes)@.drop_last(),
            old(scopes)@.len() == 0 ==> final(scopes)@ == old(scopes)@,
            match result {
                Ok(closure) => {
                    &&& old(scopes)@.len() > 0
                    &&& old(scopes)@.last() matches LevelView::Closure { captures, generator, .. }
                    &&& capture_names(closure.captures@) == captures
                    &&& closure.generator == generator
                },
                Err(error) => if old(scopes)@.len() == 0 {
                    error == (CompileError::Internal { error: InternalError::MissingScope, span })
                } else {
                    &&& !(old(scopes)@.last() is Closure)
                    &&& error == (CompileError::Internal {
                        error: InternalError::ExpectedClosure,
                        span,
                    })
                },
            },
    {
        let ghost before = scopes@;
        let level = match scopes.levels.pop() {
            Some(level) => level,
            None => {
                assert(scopes@ =~= before);
                return Err(CompileError::internal(InternalError::MissingScope, span));
            },
        };
        assert(scopes@ =~= before.drop_last());
        assert(before.last() == level@);
        match level {
            IndexScopeLevel::IndexClosure(closure) => Ok(
                Closure { captures: closure.captures, generator: closure.generator },
            ),
            _ => Err(CompileError::internal(InternalError::ExpectedClosure, span)),
        }
    }

    /// Pop the last function scope and return function information.
    pub fn into_function(self, scopes: &mut IndexScopes, span: Span) -> (result: Result<
        Function,
        CompileError,
    >)
        ensures
            old(scopes)@.len() > 0 ==> final(scopes)@ == old(scopes)@.drop_last(),
            old(scopes)@.len() == 0 ==> final(scopes)@ == old(scopes)@,
            match result {
                Ok(function) => {
                    &&& old(scopes)@.len() > 0
                    &&& old(scopes)@.last() matches LevelView::Function { generator, .. }
                    &&& function.generator == generator
                },
                Err(error) => if old(scopes)@.len() == 0 {
                    error == (CompileError::Internal { error: InternalError::MissingScope, span })
                } else {
                    &&& !(old(scopes)@.last() is Function)
                    &&& error == (CompileError::Internal {
                        error: InternalError::ExpectedFunction,
                        span,
                    })
                },
            },
    {
        let ghost before = scopes@;
        let level = match scopes.levels.pop() {
            Some(level) => level,
            None => {
                assert(scopes@ =~= before);
                return Err(CompileError::internal(InternalError::MissingScope, span));
            },
        };
        assert(scopes@ =~= before.drop_last());
        assert(before.last() == level@);
        match level {
            IndexScopeLevel::IndexFunction(function) => Ok(Function { generator: function.generator }),
            _ => Err(CompileError::internal(InternalError::ExpectedFunction, span)),
        }
    }
}

impl LevelView {
    /// The level holds each of its variables once, and a closure has
    /// captured each name once: the names it has captured are the
    /// variables it captures, in the same order.
    pub open spec fn wf(self) -> bool {
        &&& distinct_keys(self.locals())
        &&& self matches LevelView::Closure { captures, existing, .. } ==> captures == existing
            && existing.no_duplicates()
    }
}

/// Every level holds each of its variables once and has captured each name
/// once.
pub open spec fn levels_wf(levels: Seq<LevelView>) -> bool {
    forall|i: int| 0 <= i < levels.len() ==> (#[trigger] levels[i]).wf()
}

/// New levels hold nothing twice, and declaring a variable, using one and
/// yielding keep it so.
pub proof fn lemma_levels_stay_wf(levels: Seq<LevelView>, name: Seq<char>, span: Span)
    requires
        levels_wf(levels),
    ensures
        LevelView::scope().wf(),
        LevelView::closure().wf(),
        LevelView::function().wf(),
        levels.len() > 0 ==> levels_wf(
            levels.update(levels.len() - 1, levels.last().declared(name, span)),
        ),
        levels_wf(marked_use(levels, name)),
        forall|i: int| 0 <= i < levels.len() ==> (#[trigger] levels[i]).yielding().wf(),
{
    if levels.len() > 0 {
        let last = levels.last();
        assert(levels[levels.len() - 1] == last);
        lemma_with_entry_distinct(last.locals(), name, span);
        let after = levels.update(levels.len() - 1, last.declared(name, span));
        assert forall|i: int| 0 <= i < after.len() implies (#[trigger] after[i]).wf() by {
            if i < levels.len() - 1 {
                assert(after[i] == levels[i]);
            }
        }
    }
    lemma_found_at(levels, name, levels.len());
    let used = marked_use(levels, name);
    assert forall|i: int| 0 <= i < used.len() implies (#[trigger] used[i]).wf() by {
        assert(levels[i].wf());
        match found_at(levels, name, levels.len()) {
            Some(found) => {
                if i > found {
                    assert(!levels[i].has(name));
                    if levels[i] is Closure {
                        let existing = levels[i]->existing;
                        assert(!existing.contains(name));
                        assert forall|k: int, l: int|
                            0 <= k < existing.push(name).len() && 0 <= l < existing.push(
                                name,
                            ).len() && k != l implies existing.push(name)[k] != existing.push(
                            name,
                        )[l] by {
                            if k < existing.len() {
                                assert(existing.contains(existing[k]));
                            }
                            if l < existing.len() {
                                assert(existing.contains(existing[l]));
                            }
                        }
                    }
                }
            },
            None => {},
        }
    }
    assert forall|i: int| 0 <= i < levels.len() implies (#[trigger] levels[i]).yielding().wf() by {
        assert(levels[i].wf());
    }
}

/// A variable that is declared at some level and used inside two closures
/// that are nested in that level is captured by each of the two closures,
/// once.
pub proof fn lemma_nested_closures_capture_once(
    outer: Seq<LevelView>,
    level: LevelView,
    name: Seq<char>,
)
    requires
        position(level.locals(), name) is Some,
    ensures
        marked_use(outer.push(level).push(LevelView::closure()).push(LevelView::closure()), name)
            == outer.push(level).push(LevelView::closure().captured(name)).push(
            LevelView::closure().captured(name),
        ),
        LevelView::closure().captured(name) == (LevelView::Closure {
            captures: seq![name],
            existing: seq![name],
            locals: Seq::empty(),
            generator: false,
        }),
{
    let levels = outer.push(level).push(LevelView::closure()).push(LevelView::closure());
    let len = levels.len();
    reveal_with_fuel(found_at, 4);
    assert(!LevelView::closure().has(name)) by {
        reveal_with_fuel(position, 1);
        assert(!Seq::<Seq<char>>::empty().contains(name));
    }
    assert(levels[len - 1] == LevelView::closure());
    assert(levels[len - 2] == LevelView::closure());
    assert(levels[len - 3] == level);
    assert(found_at(levels, name, len) == Some((len - 3) as nat));
    assert(marked_use(levels, name) =~= outer.push(level).push(
        LevelView::closure().captured(name),
    ).push(LevelView::closure().captured(name)));
    assert(Seq::<Seq<char>>::empty().push(name) =~= seq![name]);
}

/// Between the level at which a use finds its variable and the innermost
/// level lie only scopes and closures that do not have the variable.
pub proof fn lemma_found_at(levels: Seq<LevelView>, name: Seq<char>, upto: nat)
    requires
        upto <= levels.len(),
    ensures
        match found_at(levels, name, upto) {
            Some(found) => {
                &&& found < upto
                &&& levels[found as int].has(name)
                &&& forall|i: int|
                    found < i < upto ==> !(#[trigger] levels[i]).has(name) && !(levels[i]
                        is Function)
            },
            None => true,
        },
    decreases upto,
{
    if upto > 0 && !levels[upto - 1].has(name) && !(levels[upto - 1] is Function) {
        lemma_found_at(levels, name, (upto - 1) as nat);
    }
}

/// A level that has a variable, with only scopes and closures without the
/// variable between it and the innermost level, is where a use finds the
/// variable.
pub proof fn lemma_found_at_is(levels: Seq<LevelView>, name: Seq<char>, upto: nat, found: nat)
    requires
        found < upto <= levels.len(),
        levels[found as int].has(name),
        forall|i: int|
            found < i < upto ==> !(#[trigger] levels[i]).has(name) && !(levels[i] is Function),
    ensures
        found_at(levels, name, upto) == Some(found),
    decreases upto,
{
    if upto - 1 > found {
        lemma_found_at_is(levels, name, (upto - 1) as nat, found);
    }
}

/// The innermost closure among the levels from `from` up to `upto`, if
/// there is one.
pub open spec fn innermost_closure(levels: Seq<LevelView>, from: int, upto: int) -> Option<int>
    decreases upto - from,
{
    if upto <= from {
        None
    } else if levels[upto - 1] is Closure {
        Some(upto - 1)
    } else {
        innermost_closure(levels, from, upto - 1)
    }
}

/// What [`innermost_closure`] finds is a closure with no closure inside it.
pub proof fn lemma_innermost_closure(levels: Seq<LevelView>, from: int, upto: int)
    requires
        0 <= from,
        upto <= levels.len(),
    ensures
        match innermost_closure(levels, from, upto) {
            Some(found) => {
                &&& from <= found < upto
                &&& levels[found] is Closure
                &&& forall|i: int| found < i < upto ==> !(#[trigger] levels[i] is Closure)
            },
            None => forall|i: int| from <= i < upto ==> !(#[trigger] levels[i] is Closure),
        },
    decreases upto - from,
{
    if upto > from && !(levels[upto - 1] is Closure) {
        lemma_innermost_closure(levels, from, upto - 1);
    }
}

/// Using a variable a second time changes nothing: a closure captures a
/// variable once, however often it is used.
pub proof fn lemma_mark_use_idempotent(levels: Seq<LevelView>, name: Seq<char>)
    ensures
        marked_use(marked_use(levels, name), name) == marked_use(levels, name),
{
    let len = levels.len();
    let once = marked_use(levels, name);
    lemma_found_at(levels, name, len);
    match found_at(levels, name, len) {
        None => {},
        Some(found) => {
            assert(once.len() == len);
            lemma_innermost_closure(levels, found as int + 1, len as int);
            match innermost_closure(levels, found as int + 1, len as int) {
                None => {
                    assert(once =~= levels);
                },
                Some(closure) => {
                    assert(once[closure] == levels[closure].captured(name));
                    assert(once[closure].has(name)) by {
                        let existing = levels[closure]->existing;
                        assert(existing.push(name)[existing.len() as int] == name);
                    }
                    assert forall|i: int| closure < i < len implies !(#[trigger] once[i]).has(
                        name,
                    ) && !(once[i] is Function) by {
                        assert(!(levels[i] is Closure));
                        assert(once[i] == levels[i]);
                    }
                    lemma_found_at_is(once, name, len, closure as nat);
                    assert(marked_use(once, name) =~= once) by {
                        assert forall|i: int| closure < i < len implies once[i].captured(name)
                            == #[trigger] once[i] by {
                            assert(!(levels[i] is Closure));
                            assert(once[i] == levels[i]);
                        }
                    }
                },
            }
        },
    }
}

} // verus!
