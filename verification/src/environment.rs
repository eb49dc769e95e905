//! Environments map the names of a scope to their values. Every scope of a
//! running program lives in one list and is known by its index there, so a
//! scope can be shared by the block that opened it and by every function
//! declared in it: what one writes, all see. A scope names the scope that
//! encloses it, which always stands earlier in the list.
use vstd::prelude::*;
use vstd::string::StringExecFns;
use crate::expressions::{Value, ValueView};
use crate::types::{RuntimeError, RuntimeErrorKind, RuntimeErrorView};

verus! {

/// One name bound to one value.
#[derive(Debug, PartialEq)]
pub struct Binding {
    pub name: String,
    pub value: Value,
}

/// The table of one scope and the index of the scope around it.
#[derive(Debug, PartialEq)]
pub struct Environment {
    /// The scope this one lives in; `None` for the global scope.
    pub enclosing: Option<usize>,
    /// The bindings of this scope; of two with one name the later counts.
    pub values: Vec<Binding>,
}

/// Mathematical model of [`Environment`].
pub struct EnvironmentView {
    pub enclosing: Option<nat>,
    pub values: Map<Seq<char>, ValueView>,
}

/// The map that a list of bindings stands for.
pub open spec fn bindings(list: Seq<Binding>) -> Map<Seq<char>, ValueView>
    decreases list.len(),
{
    if list.len() == 0 {
        Map::empty()
    } else {
        bindings(list.drop_last()).insert(list.last().name@, list.last().value@)
    }
}

impl View for Environment {
    type V = EnvironmentView;

    open spec fn view(&self) -> EnvironmentView {
        EnvironmentView {
            enclosing: match self.enclosing {
                Some(p) => Some(p as nat),
                None => None,
            },
            values: bindings(self.values@),
        }
    }
}

/// The models of the scopes of `scopes`, in order.
#[verifier::opaque]
pub open spec fn scopes_view(scopes: Seq<Environment>) -> Seq<EnvironmentView> {
    Seq::new(scopes.len(), |i: int| scopes[i]@)
}

/// The value of `name` seen from scope `env`: that of the innermost scope
/// that binds it, from `env` outwards.
pub open spec fn lookup(scopes: Seq<EnvironmentView>, env: nat, name: Seq<char>) -> Option<
    ValueView,
>
    decreases env,
{
    if env >= scopes.len() {
        None
    } else if scopes[env as int].values.contains_key(name) {
        Some(scopes[env as int].values[name])
    } else {
        match scopes[env as int].enclosing {
            Some(p) => if p < env {
                lookup(scopes, p, name)
            } else {
                None
            },
            None => None,
        }
    }
}

/// The scope that binds `name` as seen from `env`, if any does.
pub open spec fn holder(scopes: Seq<EnvironmentView>, env: nat, name: Seq<char>) -> Option<nat>
    decreases env,
{
    if env >= scopes.len() {
        None
    } else if scopes[env as int].values.contains_key(name) {
        Some(env)
    } else {
        match scopes[env as int].enclosing {
            Some(p) => if p < env {
                holder(scopes, p, name)
            } else {
                None
            },
            None => None,
        }
    }
}

/// Scope `env` with `name` bound to `value`, the others unchanged.
pub open spec fn defined(scopes: Seq<EnvironmentView>, env: nat, name: Seq<char>, value: ValueView)
    -> Seq<EnvironmentView> {
    if env < scopes.len() {
        scopes.update(
            env as int,
            EnvironmentView {
                enclosing: scopes[env as int].enclosing,
                values: scopes[env as int].values.insert(name, value),
            },
        )
    } else {
        scopes
    }
}

/// The scopes after `name = value` in scope `env`: the binding that `name`
/// resolves to is overwritten; `None` if no scope binds it.
pub open spec fn assigned(
    scopes: Seq<EnvironmentView>,
    env: nat,
    name: Seq<char>,
    value: ValueView,
) -> Option<Seq<EnvironmentView>> {
    match holder(scopes, env, name) {
        Some(h) => Some(defined(scopes, h, name, value)),
        None => None,
    }
}

/// The error of reading a name that no scope in reach binds.
pub open spec fn undefined_variable() -> RuntimeErrorView {
    crate::types::runtime_error(
        RuntimeErrorKind::UndefinedVariable,
        "Undefined Variable."@,
    )
}

/// The error of assigning to a name that no scope in reach binds.
pub open spec fn undefined_target() -> RuntimeErrorView {
    crate::types::runtime_error(
        RuntimeErrorKind::UndefinedVariable,
        "Can't write to Undefined Variable."@,
    )
}

/// A name bound last at `i` is bound in the map, to the value at `i`.
pub proof fn lemma_bound(list: Seq<Binding>, name: Seq<char>, i: int)
    requires
        0 <= i < list.len(),
        list[i].name@ == name,
        forall|j: int| i < j < list.len() ==> list[j].name@ != name,
    ensures
        bindings(list).contains_key(name),
        bindings(list)[name] == list[i].value@,
    decreases list.len(),
{
    if i < list.len() - 1 {
        lemma_bound(list.drop_last(), name, i);
    }
}

/// A name that no binding has is not bound in the map.
pub proof fn lemma_unbound(list: Seq<Binding>, name: Seq<char>)
    requires
        forall|j: int| 0 <= j < list.len() ==> list[j].name@ != name,
    ensures
        !bindings(list).contains_key(name),
    decreases list.len(),
{
    if list.len() > 0 {
        lemma_unbound(list.drop_last(), name);
    }
}

/// Appending a binding inserts it into the map.
pub proof fn lemma_pushed(list: Seq<Binding>, b: Binding)
    ensures
        bindings(list.push(b)) == bindings(list).insert(b.name@, b.value@),
{
    assert(list.push(b).drop_last() =~= list);
}

/// Replacing the last binding of a name inserts the new value into the map.
pub proof fn lemma_replaced(list: Seq<Binding>, i: int, b: Binding)
    requires
        0 <= i < list.len(),
        list[i].name@ == b.name@,
        forall|j: int| i < j < list.len() ==> list[j].name@ != b.name@,
    ensures
        bindings(list.update(i, b)) == bindings(list).insert(b.name@, b.value@),
    decreases list.len(),
{
    let after = list.update(i, b);
    if i == list.len() - 1 {
        assert(after.drop_last() =~= list.drop_last());
        assert(bindings(after) =~= bindings(list).insert(b.name@, b.value@));
    } else {
        lemma_replaced(list.drop_last(), i, b);
        assert(after.drop_last() =~= list.drop_last().update(i, b));
        assert(bindings(after) =~= bindings(list).insert(b.name@, b.value@));
    }
}

/// Index of the last binding of `name`, if there is one.
pub fn find(list: &Vec<Binding>, name: &String) -> (r: Option<usize>)
    ensures
        match r {
            Some(i) => i < list.len() && list@[i as int].name@ == name@ && forall|j: int|
                i < j < list.len() ==> list@[j].name@ != name@,
            None => forall|j: int| 0 <= j < list.len() ==> list@[j].name@ != name@,
        },
{
    let mut i: usize = list.len();
    while i > 0
        invariant
            i <= list.len(),
            forall|j: int| i <= j < list.len() ==> list@[j].name@ != name@,
        decreases i,
    {
        i -= 1;
        if list[i].name == *name {
            return Some(i);
        }
    }
    None
}

impl Environment {
    /// An empty scope inside `enclosing`.
    pub fn new(enclosing: Option<usize>) -> (e: Self)
        ensures
            e.enclosing == enclosing,
            e@.values == Map::<Seq<char>, ValueView>::empty(),
    {
        Environment { enclosing: enclosing, values: Vec::new() }
    }

    /// Binds `name` to `val` in this scope, whether or not it was bound.
    pub fn define(&mut self, name: String, val: Value)
        ensures
            final(self).enclosing == old(self).enclosing,
            final(self)@.values == old(self)@.values.insert(name@, val@),
    {
        let b = Binding { name, value: val };
        match find(&self.values, &b.name) {
            Some(i) => {
                proof {
                    lemma_replaced(self.values@, i as int, b);
                }
                self.values[i] = b;
            },
            None => {
                proof {
                    lemma_pushed(self.values@, b);
                }
                self.values.push(b);
            },
        }
    }

    /// The value of `name` in this scope alone.
    pub fn get_local(&self, name: &String) -> (r: Option<Value>)
        ensures
            match r {
                Some(v) => self@.values.contains_key(name@) && self@.values[name@] == v@,
                None => !self@.values.contains_key(name@),
            },
    {
        match find(&self.values, name) {
            Some(i) => {
                proof {
                    lemma_bound(self.values@, name@, i as int);
                }
                Some(self.values[i].value.duplicate())
            },
            None => {
                proof {
                    lemma_unbound(self.values@, name@);
                }
                None
            },
        }
    }

    /// Reads `name` as seen from scope `env` of `scopes`: the innermost
    /// binding from `env` outwards, or `UndefinedVariable`.
    pub fn get_value(scopes: &Vec<Environment>, env: usize, name: &String) -> (r: Result<
        Value,
        RuntimeError,
    >)
        ensures
            match lookup(scopes_view(scopes@), env as nat, name@) {
                Some(v) => r matches Ok(found) && found@ == v,
                None => r matches Err(e) && e@ == undefined_variable(),
            },
    {
        reveal(scopes_view);
        let mut at: usize = env;
        loop
            invariant
                lookup(scopes_view(scopes@), at as nat, name@) == lookup(
                    scopes_view(scopes@),
                    env as nat,
                    name@,
                ),
            ensures
                lookup(scopes_view(scopes@), env as nat, name@) is None,
            decreases at,
        {
            reveal(scopes_view);
            if at >= scopes.len() {
                break ;
            }
            match scopes[at].get_local(name) {
                Some(v) => {
                    return Ok(v);
                },
                None => {},
            }
            match scopes[at].enclosing {
                Some(p) => {
                    if p < at {
                        at = p;
                    } else {
                        break ;
                    }
                },
                None => {
                    break ;
                },
            }
        }
        Err(RuntimeError::new(RuntimeErrorKind::UndefinedVariable, String::from_str("Undefined Variable.")))
    }

    /// Writes `val` to the binding that `name` resolves to from scope `env`
    /// of `scopes`; creates none. Without such a binding nothing changes and
    /// the error is `UndefinedVariable`.
    pub fn assign(scopes: &mut Vec<Environment>, env: usize, name: String, val: Value) -> (r: Result<
        (),
        RuntimeError,
    >)
        ensures
            match assigned(scopes_view(old(scopes)@), env as nat, name@, val@) {
                Some(after) => r is Ok && scopes_view(final(scopes)@) == after,
                None => r matches Err(e) && e@ == undefined_target() && scopes_view(
                    final(scopes)@,
                ) == scopes_view(old(scopes)@),
            },
    {
        reveal(scopes_view);
        let mut at: usize = env;
        loop
            invariant
                scopes == old(scopes),
                holder(scopes_view(scopes@), at as nat, name@) == holder(
                    scopes_view(scopes@),
                    env as nat,
                    name@,
                ),
            ensures
                scopes == old(scopes),
                holder(scopes_view(scopes@), env as nat, name@) is None,
            decreases at,
        {
            reveal(scopes_view);
            if at >= scopes.len() {
                break ;
            }
            match find(&scopes[at].values, &name) {
                Some(_) => {
                    proof {
                        let i = find_index(scopes@[at as int].values@, name@);
                        lemma_bound(scopes@[at as int].values@, name@, i);
                    }
                    let ghost before = scopes_view(scopes@);
                    scopes[at].define(name, val);
                    assert(scopes_view(scopes@) =~= defined(before, at as nat, name@, val@));
                    return Ok(());
                },
                None => {
                    proof {
                        lemma_unbound(scopes@[at as int].values@, name@);
                    }
                },
            }
            match scopes[at].enclosing {
                Some(p) => {
                    if p < at {
                        at = p;
                    } else {
                        break ;
                    }
                },
                None => {
                    break ;
                },
            }
        }
        Err(
            RuntimeError::new(
                RuntimeErrorKind::UndefinedVariable,
                String::from_str("Can't write to Undefined Variable."),
            ),
        )
    }
}

/// Index of the last binding of `name`.
pub open spec fn find_index(list: Seq<Binding>, name: Seq<char>) -> int {
    choose|i: int|
        0 <= i < list.len() && list[i].name@ == name && forall|j: int|
            i < j < list.len() ==> list[j].name@ != name
}

} // verus!
