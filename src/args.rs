//! Declarations of positional and trailing arguments, and their validation against the free
//! arguments that remain after option parsing.

use vstd::prelude::*;

use crate::errors::UsageError;
use crate::text::{
    decimal, decimal_string, format_two_columns, spaces, two_columns, COL2_START, COL2_WIDTH,
};

verus! {

/// A declared positional argument.
pub struct PositionalDecl {
    pub name: String,
    pub description: String,
}

/// The declaration of the trailing arguments: between `min` and `max` values, where a `max` of
/// `usize::MAX` stands for no upper bound.
pub struct TrailingDecl {
    pub name: String,
    pub min: usize,
    pub max: usize,
    pub description: String,
}

/// What a trailing declaration says.
pub struct TrailingView {
    pub name: Seq<char>,
    pub min: nat,
    pub max: nat,
    pub description: Seq<char>,
}

/// What a set of argument declarations says: the positional arguments in order, as pairs of
/// name and description, and the trailing declaration if there is one.
pub struct ArgumentsView {
    pub positional: Seq<(Seq<char>, Seq<char>)>,
    pub trailing: Option<TrailingView>,
}

impl ArgumentsView {
    /// Whether a positional argument called `name` is declared.
    pub open spec fn declares(self, name: Seq<char>) -> bool {
        exists|i: int| 0 <= i < self.positional.len() && #[trigger] self.positional[i].0 == name
    }

    /// No two positional arguments share a name.
    pub open spec fn names_unique(self) -> bool {
        forall|i: int, j: int|
            0 <= i < j < self.positional.len() ==> #[trigger] self.positional[i].0
                != #[trigger] self.positional[j].0
    }

    /// Nothing is declared.
    pub open spec fn is_empty(self) -> bool {
        self.positional.len() == 0 && self.trailing is None
    }
}

/// Representation of expected free arguments: the positional arguments in the order they are
/// declared, then at most one declaration of trailing arguments.
pub struct Arguments {
    positional_spec: Vec<PositionalDecl>,
    trailing_spec: Option<TrailingDecl>,
}

impl View for Arguments {
    type V = ArgumentsView;

    closed spec fn view(&self) -> ArgumentsView {
        ArgumentsView {
            positional: self.positional_spec@.map_values(
                |d: PositionalDecl| (d.name@, d.description@),
            ),
            trailing: match self.trailing_spec {
                Some(t) => Some(
                    TrailingView {
                        name: t.name@,
                        min: t.min as nat,
                        max: t.max as nat,
                        description: t.description@,
                    },
                ),
                None => None,
            },
        }
    }
}

/// The bound values of a successful validation.
pub struct MatchesView {
    pub positional: Seq<(Seq<char>, Seq<char>)>,
    pub trailing: Seq<Seq<char>>,
}

/// Representation of parsed free arguments.
#[derive(Debug)]
pub struct Matches {
    /// The positional arguments as pairs of declared name and value, in declaration order.
    pub positional: Vec<(String, String)>,
    /// The trailing arguments.
    pub trailing: Vec<String>,
}

impl View for Matches {
    type V = MatchesView;

    open spec fn view(&self) -> MatchesView {
        MatchesView {
            positional: self.positional@.map_values(|p: (String, String)| (p.0@, p.1@)),
            trailing: self.trailing@.map_values(|s: String| s@),
        }
    }
}

/// The brief form of the trailing argument `name`.
pub open spec fn trailing_brief_text(name: Seq<char>, min: nat, max: nat) -> Seq<char> {
    if min == 0 && max == 1 {
        "["@ + name + "]"@
    } else if min == 0 && max == usize::MAX {
        "["@ + name + "1 .. "@ + name + "N]"@
    } else if min == 1 && max == usize::MAX {
        name + "1 [.. "@ + name + "N]"@
    } else {
        name + decimal(min) + " .. "@ + name + decimal(max)
    }
}

/// `names` joined by single spaces.
pub open spec fn join_names(names: Seq<Seq<char>>) -> Seq<char>
    decreases names.len(),
{
    if names.len() == 0 {
        Seq::empty()
    } else if names.len() == 1 {
        names[0]
    } else {
        join_names(names.drop_last()) + " "@ + names.last()
    }
}

/// The one-line summary of a set of declarations.
pub open spec fn brief_text(a: ArgumentsView) -> Seq<char> {
    let p = join_names(a.positional.map_values(|d: (Seq<char>, Seq<char>)| d.0));
    match a.trailing {
        None => p,
        Some(t) => if p.len() == 0 {
            trailing_brief_text(t.name, t.min, t.max)
        } else {
            p + " "@ + trailing_brief_text(t.name, t.min, t.max)
        },
    }
}

/// One line of the argument help: the label indented by four spaces, then the description.
pub open spec fn help_row(label: Seq<char>, description: Seq<char>) -> Seq<char> {
    two_columns(spaces(4) + label, description, COL2_START as nat, COL2_WIDTH as nat) + "\n"@
}

/// The help rows of the positional arguments `ps`, in order.
pub open spec fn positional_rows(ps: Seq<(Seq<char>, Seq<char>)>) -> Seq<char>
    decreases ps.len(),
{
    if ps.len() == 0 {
        Seq::empty()
    } else {
        positional_rows(ps.drop_last()) + help_row(ps.last().0, ps.last().1)
    }
}

/// The multi-line help of a set of declarations: empty when nothing is declared.
pub open spec fn usage_text(a: ArgumentsView) -> Seq<char> {
    if a.is_empty() {
        Seq::empty()
    } else {
        let head = "Arguments:\n"@ + positional_rows(a.positional);
        match a.trailing {
            None => head,
            Some(t) => head + help_row(trailing_brief_text(t.name, t.min, t.max), t.description),
        }
    }
}

/// The message for a missing positional argument.
pub open spec fn missing_message(name: Seq<char>) -> Seq<char> {
    "Required argument '"@ + name + "' not provided"@
}

/// The message for too few trailing arguments.
pub open spec fn too_few_message(name: Seq<char>, min: nat) -> Seq<char> {
    if min == 1 {
        "Trailing argument '"@ + name + "' requires at least 1 value"@
    } else {
        "Trailing argument '"@ + name + "' requires at least "@ + decimal(min) + " values"@
    }
}

/// The message for free arguments that nothing declares.
pub open spec fn too_many_message() -> Seq<char> {
    "Too many arguments"@
}

/// The outcome of validating `free` against the declarations `a`: the bindings, or the message
/// of the first problem found.
///
/// Positional arguments take the leading free arguments in order; the first one left without a
/// value is reported. What remains goes to the trailing declaration, within its bounds, and is an
/// error when there is none.
pub open spec fn validate(a: ArgumentsView, free: Seq<Seq<char>>) -> Result<MatchesView, Seq<char>> {
    let np = a.positional.len();
    if free.len() < np {
        Err(missing_message(a.positional[free.len() as int].0))
    } else {
        let bound = MatchesView {
            positional: Seq::new(np, |i: int| (a.positional[i].0, free[i])),
            trailing: free.subrange(np as int, free.len() as int),
        };
        let rest = free.len() - np;
        match a.trailing {
            None => if rest > 0 {
                Err(too_many_message())
            } else {
                Ok(bound)
            },
            Some(t) => if rest < t.min {
                Err(too_few_message(t.name, t.min))
            } else if rest > t.max {
                Err(too_many_message())
            } else {
                Ok(bound)
            },
        }
    }
}

/// The value bound to the first positional argument called `name` in `ps`.
pub open spec fn bound_value(ps: Seq<(Seq<char>, Seq<char>)>, name: Seq<char>, value: Seq<char>) -> bool {
    exists|i: int|
        0 <= i < ps.len() && #[trigger] ps[i].0 == name && ps[i].1 == value && forall|j: int|
            0 <= j < i ==> #[trigger] ps[j].0 != name
}

/// When every declared positional argument gets exactly one free argument and no trailing value
/// is required, validation succeeds and binds the free arguments to the declarations in order;
/// with unique names, looking up each declared name gives its free argument.
pub proof fn lemma_exact_positionals_bind(a: ArgumentsView, free: Seq<Seq<char>>)
    requires
        free.len() == a.positional.len(),
        match a.trailing {
            Some(t) => t.min == 0,
            None => true,
        },
    ensures
        validate(a, free) is Ok,
        forall|i: int|
            0 <= i < free.len() ==> #[trigger] validate(a, free)->Ok_0.positional[i] == (
                a.positional[i].0,
                free[i],
            ),
        validate(a, free)->Ok_0.positional.len() == free.len(),
        validate(a, free)->Ok_0.trailing.len() == 0,
        a.names_unique() ==> forall|i: int|
            0 <= i < free.len() ==> bound_value(
                validate(a, free)->Ok_0.positional,
                #[trigger] a.positional[i].0,
                free[i],
            ),
{
    let m = validate(a, free)->Ok_0;
    if a.names_unique() {
        assert forall|i: int| 0 <= i < free.len() implies bound_value(
            m.positional,
            #[trigger] a.positional[i].0,
            free[i],
        ) by {
            assert(m.positional[i].0 == a.positional[i].0);
            assert forall|j: int| 0 <= j < i implies #[trigger] m.positional[j].0
                != a.positional[i].0 by {
                assert(m.positional[j].0 == a.positional[j].0);
            }
        }
    }
}

/// With fewer free arguments than declared positional arguments, validation fails naming the
/// first positional argument that got no value.
pub proof fn lemma_missing_positional_named(a: ArgumentsView, free: Seq<Seq<char>>)
    requires
        free.len() < a.positional.len(),
    ensures
        validate(a, free) == Err::<MatchesView, Seq<char>>(
            "Required argument '"@ + a.positional[free.len() as int].0 + "' not provided"@,
        ),
{
}

/// Without a trailing declaration, free arguments left over after the positional ones are an
/// error.
pub proof fn lemma_leftover_without_trailing(a: ArgumentsView, free: Seq<Seq<char>>)
    requires
        a.trailing is None,
        free.len() > a.positional.len(),
    ensures
        validate(a, free) == Err::<MatchesView, Seq<char>>("Too many arguments"@),
{
}

/// An optional list of trailing arguments accepts any number of leftover free arguments and
/// binds them in order; alone, it is summarized as `[name1 .. nameN]`. (A list of free
/// arguments is held in memory, so its length fits in a `usize`.)
pub proof fn lemma_optional_list_accepts_all(a: ArgumentsView, free: Seq<Seq<char>>)
    requires
        a.trailing matches Some(t) && t.min == 0 && t.max == usize::MAX,
        a.positional.len() <= free.len() <= usize::MAX,
    ensures
        validate(a, free) is Ok,
        validate(a, free)->Ok_0.trailing == free.subrange(
            a.positional.len() as int,
            free.len() as int,
        ),
        a.positional.len() == 0 ==> brief_text(a) == "["@ + a.trailing->Some_0.name + "1 .. "@
            + a.trailing->Some_0.name + "N]"@,
{
    let np = a.positional.len();
    if np == 0 {
        let names = a.positional.map_values(|d: (Seq<char>, Seq<char>)| d.0);
        assert(names.len() == 0);
        assert(join_names(names).len() == 0);
    }
}

/// A list of trailing arguments that needs at least one value fails when none is left over.
pub proof fn lemma_required_list_needs_one(a: ArgumentsView, free: Seq<Seq<char>>)
    requires
        a.trailing matches Some(t) && t.min == 1 && t.max == usize::MAX,
        free.len() == a.positional.len(),
    ensures
        validate(a, free) == Err::<MatchesView, Seq<char>>(
            "Trailing argument '"@ + a.trailing->Some_0.name + "' requires at least 1 value"@,
        ),
{
}

/// Returns the brief specification for the trailing argument `name`.
pub fn trailing_brief(name: &str, min: usize, max: usize) -> (r: String)
    ensures
        r@ == trailing_brief_text(name@, min as nat, max as nat),
{
    if min == 0 && max == 1 {
        let mut r = String::from_str("[");
        r.append(name);
        r.append("]");
        r
    } else if min == 0 && max == usize::MAX {
        let mut r = String::from_str("[");
        r.append(name);
        r.append("1 .. ");
        r.append(name);
        r.append("N]");
        r
    } else if min == 1 && max == usize::MAX {
        let mut r = String::from_str(name);
        r.append("1 [.. ");
        r.append(name);
        r.append("N]");
        r
    } else {
        let mut r = String::from_str(name);
        let lo = decimal_string(min);
        r.append(lo.as_str());
        r.append(" .. ");
        r.append(name);
        let hi = decimal_string(max);
        r.append(hi.as_str());
        r
    }
}

fn usage_row(label: &str, description: &str) -> (r: String)
    ensures
        r@ == help_row(label@, description@),
{
    let mut col1 = String::from_str("    ");
    col1.append(label);
    proof {
        reveal_strlit("    ");
        assert(col1@ =~= spaces(4) + label@);
    }
    let mut row = format_two_columns(col1, description, COL2_START, COL2_WIDTH);
    row.append("\n");
    row
}

impl Arguments {
    /// No declarations.
    pub fn new() -> (r: Arguments)
        ensures
            r@.positional.len() == 0,
            r@.trailing is None,
            r@.names_unique(),
    {
        let r = Arguments { positional_spec: Vec::new(), trailing_spec: None };
        proof {
            assert(r@.positional =~= Seq::empty());
        }
        r
    }

    /// Registers the next positional argument with `name` and `description`.
    ///
    /// Positional arguments cannot follow the trailing declaration, and their names are unique.
    pub fn positional(&mut self, name: &str, description: &str)
        requires
            old(self)@.trailing is None,
            !old(self)@.declares(name@),
        ensures
            final(self)@.positional == old(self)@.positional.push((name@, description@)),
            final(self)@.trailing is None,
            old(self)@.names_unique() ==> final(self)@.names_unique(),
    {
        let decl = PositionalDecl {
            name: String::from_str(name),
            description: String::from_str(description),
        };
        self.positional_spec.push(decl);
        proof {
            assert(self@.positional =~= old(self)@.positional.push((name@, description@)));
            if old(self)@.names_unique() {
                assert forall|i: int, j: int|
                    0 <= i < j < self@.positional.len() implies #[trigger] self@.positional[i].0
                    != #[trigger] self@.positional[j].0 by {
                    if j == old(self)@.positional.len() {
                        assert(old(self)@.positional[i].0 == self@.positional[i].0);
                    }
                }
            }
        }
    }

    /// Registers the remaining trailing arguments with a base name of `name` and a
    /// `description`.
    ///
    /// `min` and `max` specify the number of occurrences required for this argument. The common
    /// cases are 0 and 1 for an optional argument; 0 and `usize::MAX` for an optional list of
    /// arguments; and 1 and `usize::MAX` for a list with at least one entry. It can be declared
    /// once.
    pub fn trailing(&mut self, name: &str, min: usize, max: usize, description: &str)
        requires
            old(self)@.trailing is None,
        ensures
            final(self)@.positional == old(self)@.positional,
            final(self)@.trailing == Some(
                TrailingView {
                    name: name@,
                    min: min as nat,
                    max: max as nat,
                    description: description@,
                },
            ),
    {
        self.trailing_spec = Some(
            TrailingDecl {
                name: String::from_str(name),
                min,
                max,
                description: String::from_str(description),
            },
        );
    }

    /// Whether a positional argument called `name` is declared.
    pub fn has_positional(&self, name: &str) -> (r: bool)
        ensures
            r == self@.declares(name@),
    {
        let key = String::from_str(name);
        let mut i: usize = 0;
        while i < self.positional_spec.len()
            invariant
                i <= self.positional_spec.len(),
                key@ == name@,
                forall|j: int| 0 <= j < i ==> #[trigger] self@.positional[j].0 != name@,
            decreases self.positional_spec.len() - i,
        {
            if self.positional_spec[i].name == key {
                assert(self@.positional[i as int].0 == name@);
                return true;
            }
            i = i + 1;
        }
        false
    }

    /// Whether the trailing arguments are declared.
    pub fn has_trailing(&self) -> (r: bool)
        ensures
            r == (self@.trailing is Some),
    {
        self.trailing_spec.is_some()
    }

    /// Generates a brief description of the arguments to be used in usage summaries.
    pub fn brief(&self) -> (r: String)
        ensures
            r@ == brief_text(self@),
    {
        let ghost names = self@.positional.map_values(|d: (Seq<char>, Seq<char>)| d.0);
        let mut spec = String::new();
        let mut i: usize = 0;
        while i < self.positional_spec.len()
            invariant
                i <= self.positional_spec.len(),
                names == self@.positional.map_values(|d: (Seq<char>, Seq<char>)| d.0),
                spec@ == join_names(names.take(i as int)),
            decreases self.positional_spec.len() - i,
        {
            proof {
                assert(names.take(i + 1).drop_last() =~= names.take(i as int));
                assert(names.take(i + 1).last() == self.positional_spec@[i as int].name@);
            }
            if i > 0 {
                spec.append(" ");
            }
            spec.append(self.positional_spec[i].name.as_str());
            proof {
                if i == 0 {
                    assert(spec@ =~= join_names(names.take(1)));
                }
            }
            i = i + 1;
        }
        proof {
            assert(names.take(i as int) =~= names);
        }
        match &self.trailing_spec {
            Some(t) => {
                if spec.as_str().unicode_len() > 0 {
                    spec.append(" ");
                }
                let tb = trailing_brief(t.name.as_str(), t.min, t.max);
                spec.append(tb.as_str());
                proof {
                    if names.len() == 0 {
                        assert(spec@ =~= brief_text(self@));
                    }
                }
            },
            None => {},
        }
        spec
    }

    /// Generates a multi-line usage message with the details of all arguments, in the layout
    /// of the option parser's own usage block so that it can extend it.
    pub fn usage(&self) -> (r: String)
        ensures
            r@ == usage_text(self@),
    {
        if self.positional_spec.len() == 0 && self.trailing_spec.is_none() {
            return String::new();
        }
        let mut text = String::from_str("Arguments:\n");
        let mut i: usize = 0;
        while i < self.positional_spec.len()
            invariant
                i <= self.positional_spec.len(),
                text@ == "Arguments:\n"@ + positional_rows(self@.positional.take(i as int)),
            decreases self.positional_spec.len() - i,
        {
            let decl = &self.positional_spec[i];
            let row = usage_row(decl.name.as_str(), decl.description.as_str());
            text.append(row.as_str());
            proof {
                let ps = self@.positional;
                assert(ps.take(i + 1).drop_last() =~= ps.take(i as int));
                assert(text@ =~= "Arguments:\n"@ + positional_rows(ps.take(i + 1)));
            }
            i = i + 1;
        }
        proof {
            assert(self@.positional.take(i as int) =~= self@.positional);
        }
        match &self.trailing_spec {
            Some(t) => {
                let brief = trailing_brief(t.name.as_str(), t.min, t.max);
                let row = usage_row(brief.as_str(), t.description.as_str());
                text.append(row.as_str());
            },
            None => {},
        }
        text
    }

    /// Validates the free arguments left by option parsing against the declarations, and binds
    /// them. Nothing is bound unless all of them are valid.
    pub fn parse(&self, free: Vec<String>) -> (r: Result<Matches, UsageError>)
        ensures
            match r {
                Ok(m) => validate(self@, free@.map_values(|s: String| s@)) == Ok::<
                    MatchesView,
                    Seq<char>,
                >(m@),
                Err(e) => validate(self@, free@.map_values(|s: String| s@)) == Err::<
                    MatchesView,
                    Seq<char>,
                >(e.message@),
            },
    {
        let ghost fv = free@.map_values(|s: String| s@);
        let np = self.positional_spec.len();
        if free.len() < np {
            let mut msg = String::from_str("Required argument '");
            msg.append(self.positional_spec[free.len()].name.as_str());
            msg.append("' not provided");
            return Err(UsageError::new(msg));
        }
        let mut positional: Vec<(String, String)> = Vec::new();
        let mut i: usize = 0;
        while i < np
            invariant
                np == self.positional_spec.len() <= free.len(),
                fv == free@.map_values(|s: String| s@),
                i <= np,
                positional@.map_values(|p: (String, String)| (p.0@, p.1@)) =~= Seq::new(
                    i as nat,
                    |j: int| (self@.positional[j].0, fv[j]),
                ),
            decreases np - i,
        {
            let name = self.positional_spec[i].name.clone();
            let value = free[i].clone();
            let ghost before = positional@;
            positional.push((name, value));
            proof {
                assert(positional@.map_values(|p: (String, String)| (p.0@, p.1@)) =~= before.map_values(
                    |p: (String, String)| (p.0@, p.1@),
                ).push((name@, value@)));
                assert(fv[i as int] == free@[i as int]@);
                assert(self@.positional[i as int].0 == self.positional_spec@[i as int].name@);
                assert(positional@.map_values(|p: (String, String)| (p.0@, p.1@)) =~= Seq::new(
                    (i + 1) as nat,
                    |j: int| (self@.positional[j].0, fv[j]),
                ));
            }
            i = i + 1;
        }
        let mut trailing: Vec<String> = Vec::new();
        let mut k: usize = np;
        while k < free.len()
            invariant
                np <= k <= free.len(),
                fv == free@.map_values(|s: String| s@),
                trailing@.map_values(|s: String| s@) =~= fv.subrange(np as int, k as int),
            decreases free.len() - k,
        {
            let value = free[k].clone();
            let ghost before = trailing@;
            trailing.push(value);
            proof {
                assert(fv[k as int] == free@[k as int]@);
                assert(trailing@ == before.push(value));
                assert(trailing@.map_values(|s: String| s@) =~= before.map_values(|s: String| s@).push(
                    value@,
                ));
                assert(trailing@.map_values(|s: String| s@) =~= fv.subrange(np as int, k + 1));
            }
            k = k + 1;
        }
        let rest = free.len() - np;
        match &self.trailing_spec {
            Some(t) => {
                if rest < t.min {
                    let mut msg = String::from_str("Trailing argument '");
                    msg.append(t.name.as_str());
                    if t.min == 1 {
                        msg.append("' requires at least 1 value");
                    } else {
                        msg.append("' requires at least ");
                        let n = decimal_string(t.min);
                        msg.append(n.as_str());
                        msg.append(" values");
                    }
                    return Err(UsageError::new(msg));
                }
                if rest > t.max {
                    return Err(UsageError::new(String::from_str("Too many arguments")));
                }
            },
            None => {
                if rest > 0 {
                    return Err(UsageError::new(String::from_str("Too many arguments")));
                }
            },
        }
        let m = Matches { positional, trailing };
        proof {
            assert(m@.positional =~= Seq::new(np as nat, |j: int| (self@.positional[j].0, fv[j])));
        }
        Ok(m)
    }
}

impl Default for Arguments {
    fn default() -> (r: Arguments)
        ensures
            r@.positional.len() == 0,
            r@.trailing is None,
            r@.names_unique(),
    {
        Arguments::new()
    }
}

impl Matches {
    /// Whether a positional argument called `name` is bound, so that `arg_pos` can look it up.
    pub fn has_arg(&self, name: &str) -> (r: bool)
        ensures
            r == exists|i: int|
                0 <= i < self@.positional.len() && #[trigger] self@.positional[i].0 == name@,
    {
        let key = String::from_str(name);
        let mut i: usize = 0;
        while i < self.positional.len()
            invariant
                i <= self.positional.len(),
                key@ == name@,
                forall|j: int| 0 <= j < i ==> #[trigger] self@.positional[j].0 != name@,
            decreases self.positional.len() - i,
        {
            if self.positional[i].0 == key {
                assert(self@.positional[i as int].0 == name@);
                return true;
            }
            i = i + 1;
        }
        false
    }

    /// Returns the value of the positional argument called `name`.
    pub fn arg_pos(&self, name: &str) -> (r: &str)
        requires
            exists|i: int| 0 <= i < self@.positional.len() && #[trigger] self@.positional[i].0 == name@,
        ensures
            bound_value(self@.positional, name@, r@),
    {
        let key = String::from_str(name);
        let mut i: usize = 0;
        while i < self.positional.len()
            invariant
                i <= self.positional.len(),
                key@ == name@,
                exists|k: int| i <= k < self@.positional.len() && #[trigger] self@.positional[k].0 == name@,
                forall|j: int| 0 <= j < i ==> #[trigger] self@.positional[j].0 != name@,
            decreases self.positional.len() - i,
        {
            if self.positional[i].0 == key {
                let r = self.positional[i].1.as_str();
                assert(self@.positional[i as int].0 == name@);
                return r;
            }
            i = i + 1;
        }
        proof {
            let k = choose|k: int| i <= k < self@.positional.len() && #[trigger] self@.positional[k].0 == name@;
        }
        ""
    }

    /// Returns the trailing arguments, in order.
    pub fn arg_trail(&self) -> (r: &[String])
        ensures
            r@.map_values(|s: String| s@) == self@.trailing,
    {
        self.trailing.as_slice()
    }
}

} // verus!
