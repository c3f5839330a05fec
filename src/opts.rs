//! The option parser underneath: its types, what this library relies on from it, and the
//! option-declaring methods of `Builder`.

use vstd::prelude::*;

use crate::text::width;
use crate::Builder;
use getopts::{Fail, HasArg, Matches as OptionMatches, Occur, Options};

verus! {

#[verifier::external_type_specification]
#[verifier::external_body]
pub struct ExOptions(Options);

#[verifier::external_type_specification]
#[verifier::external_body]
pub struct ExOptionMatches(OptionMatches);

#[verifier::external_type_specification]
#[verifier::external_body]
pub struct ExFail(Fail);

#[verifier::external_type_specification]
#[verifier::external_body]
pub struct ExHasArg(HasArg);

#[verifier::external_type_specification]
#[verifier::external_body]
pub struct ExOccur(Occur);

/// The option groups of a set of options, in the order they were declared, as pairs of short
/// and long name.
pub uninterp spec fn option_names(o: Options) -> Seq<(Seq<char>, Seq<char>)>;

/// Whether parsing `args` against the options `o` fails. Parsing depends on the options and
/// the arguments alone.
pub uninterp spec fn parse_fails(o: Options, args: Seq<Seq<char>>) -> bool;

/// The free arguments that parsing `args` against the options `o` leaves, in order.
pub uninterp spec fn parsed_free(o: Options, args: Seq<Seq<char>>) -> Seq<Seq<char>>;

/// Whether parsing `args` against the options `o` finds the option called `name` given.
pub uninterp spec fn parsed_given(o: Options, args: Seq<Seq<char>>, name: Seq<char>) -> bool;

/// The free arguments that the parse results `m` hold.
pub uninterp spec fn free_of(m: OptionMatches) -> Seq<Seq<char>>;

/// Whether the parse results `m` hold the option called `name` as given.
pub uninterp spec fn given_of(m: OptionMatches, name: Seq<char>) -> bool;

/// The usage block that the options `o` render under the heading `brief`. It depends on the
/// options and the heading alone.
pub uninterp spec fn usage_block(o: Options, brief: Seq<char>) -> Seq<char>;

/// Names that the option parser accepts for one option group: a short name of at most one byte,
/// a long name that is empty or longer than one byte, and not both empty.
pub open spec fn valid_option_names(short_name: Seq<char>, long_name: Seq<char>) -> bool {
    &&& width(short_name) <= 1
    &&& (width(long_name) == 0 || width(long_name) > 1)
    &&& (width(short_name) > 0 || width(long_name) > 0)
}

/// Every option group has names that the option parser accepts.
pub open spec fn options_valid(names: Seq<(Seq<char>, Seq<char>)>) -> bool {
    forall|i: int| 0 <= i < names.len() ==> valid_option_names(#[trigger] names[i].0, names[i].1)
}

/// The text with which the option parser's usage block starts.
pub open spec fn usage_block_start(brief: Seq<char>) -> Seq<char> {
    brief + "\n\nOptions:\n"@
}

/// Relies on getopts::Options::new: the set starts without option groups.
#[verifier::external_body]
pub(crate) fn new_options() -> (r: Options)
    ensures
        option_names(r) == Seq::<(Seq<char>, Seq<char>)>::empty(),
{
    Options::new()
}

/// Relies on getopts::Options::opt: it appends one group with these names, and panics on names
/// that `valid_option_names` rules out.
#[verifier::external_body]
fn add_opt(
    o: &mut Options,
    short_name: &str,
    long_name: &str,
    desc: &str,
    hint: &str,
    hasarg: HasArg,
    occur: Occur,
)
    requires
        valid_option_names(short_name@, long_name@),
    ensures
        option_names(*final(o)) == option_names(*old(o)).push((short_name@, long_name@)),
{
    o.opt(short_name, long_name, desc, hint, hasarg, occur);
}

/// Relies on getopts::Options::optflag: it appends one group with these names, and panics on
/// names that `valid_option_names` rules out.
#[verifier::external_body]
pub(crate) fn add_optflag(o: &mut Options, short_name: &str, long_name: &str, desc: &str)
    requires
        valid_option_names(short_name@, long_name@),
    ensures
        option_names(*final(o)) == option_names(*old(o)).push((short_name@, long_name@)),
{
    o.optflag(short_name, long_name, desc);
}

/// Relies on getopts::Options::optflagmulti: it appends one group with these names, and panics
/// on names that `valid_option_names` rules out.
#[verifier::external_body]
fn add_optflagmulti(o: &mut Options, short_name: &str, long_name: &str, desc: &str)
    requires
        valid_option_names(short_name@, long_name@),
    ensures
        option_names(*final(o)) == option_names(*old(o)).push((short_name@, long_name@)),
{
    o.optflagmulti(short_name, long_name, desc);
}

/// Relies on getopts::Options::optflagopt: it appends one group with these names, and panics on
/// names that `valid_option_names` rules out.
#[verifier::external_body]
fn add_optflagopt(o: &mut Options, short_name: &str, long_name: &str, desc: &str, hint: &str)
    requires
        valid_option_names(short_name@, long_name@),
    ensures
        option_names(*final(o)) == option_names(*old(o)).push((short_name@, long_name@)),
{
    o.optflagopt(short_name, long_name, desc, hint);
}

/// Relies on getopts::Options::optmulti: it appends one group with these names, and panics on
/// names that `valid_option_names` rules out.
#[verifier::external_body]
fn add_optmulti(o: &mut Options, short_name: &str, long_name: &str, desc: &str, hint: &str)
    requires
        valid_option_names(short_name@, long_name@),
    ensures
        option_names(*final(o)) == option_names(*old(o)).push((short_name@, long_name@)),
{
    o.optmulti(short_name, long_name, desc, hint);
}

/// Relies on getopts::Options::optopt: it appends one group with these names, and panics on
/// names that `valid_option_names` rules out.
#[verifier::external_body]
fn add_optopt(o: &mut Options, short_name: &str, long_name: &str, desc: &str, hint: &str)
    requires
        valid_option_names(short_name@, long_name@),
    ensures
        option_names(*final(o)) == option_names(*old(o)).push((short_name@, long_name@)),
{
    o.optopt(short_name, long_name, desc, hint);
}

/// Relies on getopts::Options::reqopt: it appends one group with these names, and panics on
/// names that `valid_option_names` rules out.
#[verifier::external_body]
fn add_reqopt(o: &mut Options, short_name: &str, long_name: &str, desc: &str, hint: &str)
    requires
        valid_option_names(short_name@, long_name@),
    ensures
        option_names(*final(o)) == option_names(*old(o)).push((short_name@, long_name@)),
{
    o.reqopt(short_name, long_name, desc, hint);
}

/// Relies on getopts::Options::parse: it parses `args` against the declared options, with a
/// result that depends on those two alone; it panics on an option group that has neither a
/// short nor a long name.
#[verifier::external_body]
pub(crate) fn parse_options(o: &Options, args: &Vec<String>) -> (r: Result<OptionMatches, Fail>)
    requires
        options_valid(option_names(*o)),
    ensures
        match r {
            Ok(m) => {
                &&& !parse_fails(*o, args@.map_values(|s: String| s@))
                &&& free_of(m) == parsed_free(*o, args@.map_values(|s: String| s@))
                &&& forall|name: Seq<char>| #[trigger]
                    given_of(m, name) == parsed_given(
                        *o,
                        args@.map_values(|s: String| s@),
                        name,
                    )
            },
            Err(_) => parse_fails(*o, args@.map_values(|s: String| s@)),
        },
{
    o.parse(args)
}

/// Relies on getopts::Options::usage: the block is `brief`, a blank line, an `Options:` line,
/// the rows of the options, and a final line break.
#[verifier::external_body]
pub(crate) fn options_usage(o: &Options, brief: &str) -> (r: String)
    requires
        options_valid(option_names(*o)),
    ensures
        r@ == usage_block(*o, brief@),
        usage_block_start(brief@).is_prefix_of(r@),
        r@.len() > 0 && r@.last() == '\n',
{
    o.usage(brief)
}

/// Relies on getopts::Matches::opts_present: whether the option called `name` was given. It
/// does not panic on a name that was never declared.
#[verifier::external_body]
pub(crate) fn option_given(m: &OptionMatches, name: &str) -> (r: bool)
    ensures
        r == given_of(*m, name@),
{
    m.opts_present(&[name.to_string()])
}

/// Relies on getopts::Matches::free: the arguments that are not options, in order.
#[verifier::external_body]
pub(crate) fn free_arguments(m: &OptionMatches) -> (r: Vec<String>)
    ensures
        r@.map_values(|s: String| s@) == free_of(*m),
{
    m.free.clone()
}

impl Builder {
    /// Declares an option with every parameter of the option parser.
    pub fn opt(
        self,
        short_name: &str,
        long_name: &str,
        desc: &str,
        hint: &str,
        hasarg: HasArg,
        occur: Occur,
    ) -> (r: Builder)
        requires
            self.wf(),
            valid_option_names(short_name@, long_name@),
        ensures
            r.wf(),
            r@ == (crate::BuilderView {
                options: self@.options.push((short_name@, long_name@)),
                ..self@
            }),
    {
        let mut b = self;
        add_opt(&mut b.opts, short_name, long_name, desc, hint, hasarg, occur);
        b
    }

    /// Declares a flag that takes no argument and occurs at most once.
    pub fn optflag(self, short_name: &str, long_name: &str, desc: &str) -> (r: Builder)
        requires
            self.wf(),
            valid_option_names(short_name@, long_name@),
        ensures
            r.wf(),
            r@ == (crate::BuilderView {
                options: self@.options.push((short_name@, long_name@)),
                ..self@
            }),
    {
        let mut b = self;
        add_optflag(&mut b.opts, short_name, long_name, desc);
        b
    }

    /// Declares a flag that takes no argument and may occur many times.
    pub fn optflagmulti(self, short_name: &str, long_name: &str, desc: &str) -> (r: Builder)
        requires
            self.wf(),
            valid_option_names(short_name@, long_name@),
        ensures
            r.wf(),
            r@ == (crate::BuilderView {
                options: self@.options.push((short_name@, long_name@)),
                ..self@
            }),
    {
        let mut b = self;
        add_optflagmulti(&mut b.opts, short_name, long_name, desc);
        b
    }

    /// Declares an option whose argument is optional.
    pub fn optflagopt(self, short_name: &str, long_name: &str, desc: &str, hint: &str) -> (r:
        Builder)
        requires
            self.wf(),
            valid_option_names(short_name@, long_name@),
        ensures
            r.wf(),
            r@ == (crate::BuilderView {
                options: self@.options.push((short_name@, long_name@)),
                ..self@
            }),
    {
        let mut b = self;
        add_optflagopt(&mut b.opts, short_name, long_name, desc, hint);
        b
    }

    /// Declares an option that takes an argument and may occur many times.
    pub fn optmulti(self, short_name: &str, long_name: &str, desc: &str, hint: &str) -> (r:
        Builder)
        requires
            self.wf(),
            valid_option_names(short_name@, long_name@),
        ensures
            r.wf(),
            r@ == (crate::BuilderView {
                options: self@.options.push((short_name@, long_name@)),
                ..self@
            }),
    {
        let mut b = self;
        add_optmulti(&mut b.opts, short_name, long_name, desc, hint);
        b
    }

    /// Declares an optional option that takes an argument.
    pub fn optopt(self, short_name: &str, long_name: &str, desc: &str, hint: &str) -> (r: Builder)
        requires
            self.wf(),
            valid_option_names(short_name@, long_name@),
        ensures
            r.wf(),
            r@ == (crate::BuilderView {
                options: self@.options.push((short_name@, long_name@)),
                ..self@
            }),
    {
        let mut b = self;
        add_optopt(&mut b.opts, short_name, long_name, desc, hint);
        b
    }

    /// Declares a required option that takes an argument.
    pub fn reqopt(self, short_name: &str, long_name: &str, desc: &str, hint: &str) -> (r: Builder)
        requires
            self.wf(),
            valid_option_names(short_name@, long_name@),
        ensures
            r.wf(),
            r@ == (crate::BuilderView {
                options: self@.options.push((short_name@, long_name@)),
                ..self@
            }),
    {
        let mut b = self;
        add_reqopt(&mut b.opts, short_name, long_name, desc, hint);
        b
    }
}

} // verus!
