//! Editable per-argument state: classification from a schema definition,
//! edits issued by the form layer, and serialization back into
//! command-line tokens.

use crate::error::ValidationErrorInfo;
use crate::schema::ArgDef;
use vstd::prelude::*;
use vstd::string::StringExecFns;

verus! {

/// Identifier type carried by choice entries so an external consumer can
/// tell otherwise-identical entries apart.
#[verifier::external_type_specification]
#[verifier::external_body]
pub struct ExUuid(uuid::Uuid);

/// Relies on `uuid::Uuid::new_v4`: a freshly generated random identifier.
/// Nothing is assumed about its value.
#[verifier::external_body]
fn fresh_uuid() -> uuid::Uuid {
    uuid::Uuid::new_v4()
}

/// Relies on the derived `Clone` of `uuid::Uuid`, a `Copy` type: the
/// clone is the same value.
pub assume_specification[ <uuid::Uuid as Clone>::clone ](u: &uuid::Uuid) -> (r: uuid::Uuid)
    ensures
        r == *u,
;

/// The sentence-cased form of a sequence of characters, as
/// `inflector::cases::sentencecase::to_sentence_case` computes it. The
/// result depends on the characters alone.
pub uninterp spec fn sentence_case_of(s: Seq<char>) -> Seq<char>;

/// Relies on `inflector::cases::sentencecase::to_sentence_case`: rewrites
/// an identifier-like name (`my_arg`, `MyArg`, ...) into sentence case
/// (`My arg`), a pure function of the input characters.
#[verifier::external_body]
fn to_sentence_case(s: &str) -> (r: String)
    ensures
        r@ == sentence_case_of(s@),
{
    inflector::cases::sentencecase::to_sentence_case(s)
}

/// A currently selected value from an enumerated set, together with an
/// opaque identity token. The token exists solely to give external
/// consumers a stable identity per entry; it carries no serialization
/// meaning.
#[derive(Debug, Clone)]
pub struct ChooseState(pub String, pub uuid::Uuid);

impl ChooseState {
    /// A selection holding `value`, under a fresh identity token.
    pub fn new(value: String) -> (r: ChooseState)
        ensures
            r.0@ == value@,
    {
        ChooseState(value, fresh_uuid())
    }
}

impl Default for ChooseState {
    /// An empty selection under a fresh identity token.
    fn default() -> (r: Self)
        ensures
            r.0@.len() == 0,
    {
        ChooseState(String::new(), fresh_uuid())
    }
}

/// The current value of one argument, in one of the eight mutually
/// exclusive shapes fixed at classification time.
#[derive(Debug, Clone)]
pub enum ArgKind {
    /// A single free-text value.
    Text { value: String, default: Option<String> },
    /// Zero or more free-text values, in order.
    MultiText { values: Vec<String>, default: Vec<String> },
    /// How many times a bare flag repeats; never negative.
    Count(u64),
    /// A presence/absence flag.
    Flag(bool),
    /// A single filesystem path.
    Path { value: String, default: Option<String>, allow_dir: bool, allow_file: bool },
    /// Zero or more filesystem paths, in order.
    MultiPath { values: Vec<String>, default: Vec<String>, allow_dir: bool, allow_file: bool },
    /// One value from an enumerated set.
    Choice { value: ChooseState, possible: Vec<String> },
    /// Zero or more values from an enumerated set, in order.
    MultiChoice { values: Vec<ChooseState>, possible: Vec<String> },
}

/// Editable state of one argument: the immutable identity derived from
/// the schema plus the current value.
#[derive(Debug, Clone)]
pub struct ArgState {
    /// Display name shown next to the field.
    pub name: String,
    /// The literal flag token (`--name`, `-v`), or none for a positional
    /// argument.
    pub call_name: Option<String>,
    /// Help text, when the schema provides any.
    pub desc: Option<String>,
    /// A required single-valued argument must be non-empty to serialize.
    pub optional: bool,
    /// Join call token and value with `=` instead of two tokens.
    pub use_equals: bool,
    /// Current value.
    pub kind: ArgKind,
}

/// The build error raised for a required single-valued argument whose
/// value is empty.
pub open spec fn required_message(name: Seq<char>) -> Seq<char> {
    name + " is required."@
}

/// The build error raised for a Count or Flag that should emit its call
/// token but has none configured.
pub open spec fn internal_error_message() -> Seq<char> {
    "Internal error."@
}

/// The tokens one non-empty value contributes: `call=value` when joined
/// with an equals sign, `call` then `value` otherwise, or the bare value
/// for a positional argument.
pub open spec fn fragment(call: Option<Seq<char>>, use_equals: bool, value: Seq<char>) -> Seq<
    Seq<char>,
> {
    match call {
        Some(c) => if use_equals {
            seq![c + "="@ + value]
        } else {
            seq![c, value]
        },
        None => seq![value],
    }
}

/// The tokens a list of values contributes: each value's fragment, in
/// list order.
pub open spec fn multi_fragments(
    call: Option<Seq<char>>,
    use_equals: bool,
    values: Seq<Seq<char>>,
) -> Seq<Seq<char>>
    decreases values.len(),
{
    if values.len() == 0 {
        Seq::empty()
    } else {
        multi_fragments(call, use_equals, values.drop_last()) + fragment(
            call,
            use_equals,
            values.last(),
        )
    }
}

/// Serialization of one single-valued argument: its fragment when the
/// value is non-empty, nothing when it is empty and optional, and a
/// required-argument error otherwise.
pub open spec fn single_tokens(
    name: Seq<char>,
    call: Option<Seq<char>>,
    use_equals: bool,
    optional: bool,
    value: Seq<char>,
) -> Result<Seq<Seq<char>>, Seq<char>> {
    if value.len() > 0 {
        Ok(fragment(call, use_equals, value))
    } else if optional {
        Ok(Seq::empty())
    } else {
        Err(required_message(name))
    }
}

/// The token `c`, `n` times over.
pub open spec fn repeat_token(c: Seq<char>, n: nat) -> Seq<Seq<char>>
    decreases n,
{
    if n == 0 {
        Seq::empty()
    } else {
        repeat_token(c, (n - 1) as nat).push(c)
    }
}

/// Serialization of a Count: the call token repeated `n` times; zero
/// emits nothing, and a positive count without a call token is an
/// internal misconfiguration.
pub open spec fn count_tokens(call: Option<Seq<char>>, n: nat) -> Result<
    Seq<Seq<char>>,
    Seq<char>,
> {
    if n == 0 {
        Ok(Seq::empty())
    } else {
        match call {
            Some(c) => Ok(repeat_token(c, n)),
            None => Err(internal_error_message()),
        }
    }
}

/// Serialization of a Flag: the call token exactly once when set,
/// nothing otherwise; set without a call token is an internal
/// misconfiguration.
pub open spec fn flag_tokens(call: Option<Seq<char>>, set: bool) -> Result<
    Seq<Seq<char>>,
    Seq<char>,
> {
    if !set {
        Ok(Seq::empty())
    } else {
        match call {
            Some(c) => Ok(seq![c]),
            None => Err(internal_error_message()),
        }
    }
}

/// The selected strings of a list of choice entries, identity tokens
/// stripped.
pub open spec fn choice_strings(values: Seq<ChooseState>) -> Seq<Seq<char>> {
    values.map_values(|c: ChooseState| c.0@)
}

impl ArgState {
    /// The call token as a sequence of characters, when one is
    /// configured.
    pub open spec fn spec_call(&self) -> Option<Seq<char>> {
        self.call_name.deep_view()
    }

    /// What serializing this argument yields: its token sequence, or the
    /// build error that aborts the whole build.
    pub open spec fn spec_tokens(&self) -> Result<Seq<Seq<char>>, Seq<char>> {
        match self.kind {
            ArgKind::Text { value, .. } => single_tokens(
                self.name@,
                self.spec_call(),
                self.use_equals,
                self.optional,
                value@,
            ),
            ArgKind::MultiText { values, .. } => Ok(
                multi_fragments(self.spec_call(), self.use_equals, values.deep_view()),
            ),
            ArgKind::Count(n) => count_tokens(self.spec_call(), n as nat),
            ArgKind::Flag(b) => flag_tokens(self.spec_call(), b),
            ArgKind::Path { value, .. } => single_tokens(
                self.name@,
                self.spec_call(),
                self.use_equals,
                self.optional,
                value@,
            ),
            ArgKind::MultiPath { values, .. } => Ok(
                multi_fragments(self.spec_call(), self.use_equals, values.deep_view()),
            ),
            ArgKind::Choice { value, .. } => single_tokens(
                self.name@,
                self.spec_call(),
                self.use_equals,
                self.optional,
                value.0@,
            ),
            ArgKind::MultiChoice { values, .. } => Ok(
                multi_fragments(self.spec_call(), self.use_equals, choice_strings(values@)),
            ),
        }
    }
}

/// Appends the fragment of one non-empty value to the token vector.
fn push_fragment(
    args: &mut Vec<String>,
    call: &Option<String>,
    use_equals: bool,
    value: &String,
) ensures
    final(args).deep_view() == old(args).deep_view() + fragment(
        call.deep_view(),
        use_equals,
        value@,
    ),
{
    match call {
        Some(c) => {
            if use_equals {
                let mut joined = c.clone();
                joined.append("=");
                joined.append(value.as_str());
                args.push(joined);
            } else {
                args.push(c.clone());
                args.push(value.clone());
            }
        },
        None => {
            args.push(value.clone());
        },
    }
    assert(args.deep_view() =~= old(args).deep_view() + fragment(
        call.deep_view(),
        use_equals,
        value@,
    ));
}

/// Appends the fragments of every value in `values`, in order.
fn push_multi(
    args: &mut Vec<String>,
    call: &Option<String>,
    use_equals: bool,
    values: &Vec<String>,
) ensures
    final(args).deep_view() == old(args).deep_view() + multi_fragments(
        call.deep_view(),
        use_equals,
        values.deep_view(),
    ),
{
    let mut i: usize = 0;
    while i < values.len()
        invariant
            i <= values.len(),
            args.deep_view() == old(args).deep_view() + multi_fragments(
                call.deep_view(),
                use_equals,
                values.deep_view().take(i as int),
            ),
        decreases values.len() - i,
    {
        push_fragment(args, call, use_equals, &values[i]);
        proof {
            let dv = values.deep_view();
            assert(dv.take(i as int + 1).drop_last() =~= dv.take(i as int));
            assert(dv.take(i as int + 1).last() == dv[i as int]);
            assert(args.deep_view() =~= old(args).deep_view() + multi_fragments(
                call.deep_view(),
                use_equals,
                dv.take(i as int + 1),
            ));
        }
        i += 1;
    }
    proof {
        assert(values.deep_view().take(values.deep_view().len() as int) =~= values.deep_view());
    }
}

/// Appends the fragments of every selected choice string, in order.
fn push_multi_choice(
    args: &mut Vec<String>,
    call: &Option<String>,
    use_equals: bool,
    values: &Vec<ChooseState>,
) ensures
    final(args).deep_view() == old(args).deep_view() + multi_fragments(
        call.deep_view(),
        use_equals,
        choice_strings(values@),
    ),
{
    let mut i: usize = 0;
    while i < values.len()
        invariant
            i <= values.len(),
            args.deep_view() == old(args).deep_view() + multi_fragments(
                call.deep_view(),
                use_equals,
                choice_strings(values@).take(i as int),
            ),
        decreases values.len() - i,
    {
        push_fragment(args, call, use_equals, &values[i].0);
        proof {
            let cs = choice_strings(values@);
            assert(cs.take(i as int + 1).drop_last() =~= cs.take(i as int));
            assert(cs.take(i as int + 1).last() == cs[i as int]);
            assert(cs[i as int] == values@[i as int].0@);
            assert(args.deep_view() =~= old(args).deep_view() + multi_fragments(
                call.deep_view(),
                use_equals,
                cs.take(i as int + 1),
            ));
        }
        i += 1;
    }
    proof {
        let cs = choice_strings(values@);
        assert(cs.take(cs.len() as int) =~= cs);
    }
}

/// Appends one token to the vector.
fn push_token(args: &mut Vec<String>, tok: &String)
    ensures
        final(args).deep_view() == old(args).deep_view().push(tok@),
{
    args.push(tok.clone());
    assert(args.deep_view() =~= old(args).deep_view().push(tok@));
}

/// Appends the call token `n` times.
fn push_repeated(args: &mut Vec<String>, call: &String, n: u64)
    ensures
        final(args).deep_view() == old(args).deep_view() + repeat_token(call@, n as nat),
{
    let mut k: u64 = 0;
    while k < n
        invariant
            k <= n,
            args.deep_view() == old(args).deep_view() + repeat_token(call@, k as nat),
        decreases n - k,
    {
        push_token(args, call);
        proof {
            assert(repeat_token(call@, (k + 1) as nat) == repeat_token(call@, k as nat).push(
                call@,
            ));
            assert(args.deep_view() =~= old(args).deep_view() + repeat_token(
                call@,
                (k + 1) as nat,
            ));
        }
        k = k + 1;
    }
}

impl ArgState {
    /// Extends `args` with this argument's tokens following the
    /// per-shape serialization rules, or returns the build error that
    /// aborts the whole build.
    pub fn get_cmd_args(&self, args: Vec<String>) -> (r: Result<Vec<String>, String>)
        ensures
            self.spec_tokens() matches Ok(ts) ==> (r matches Ok(out) && out.deep_view()
                == args.deep_view() + ts),
            self.spec_tokens() matches Err(m) ==> (r matches Err(e) && e@ == m),
    {
        let mut out = args;
        match &self.kind {
            ArgKind::Text { value, .. } => {
                if !value.as_str().is_empty() {
                    push_fragment(&mut out, &self.call_name, self.use_equals, value);
                } else if !self.optional {
                    let mut m = self.name.clone();
                    m.append(" is required.");
                    return Err(m);
                } else {
                    assert(out.deep_view() =~= args.deep_view() + Seq::<Seq<char>>::empty());
                }
            },
            ArgKind::Path { value, .. } => {
                if !value.as_str().is_empty() {
                    push_fragment(&mut out, &self.call_name, self.use_equals, value);
                } else if !self.optional {
                    let mut m = self.name.clone();
                    m.append(" is required.");
                    return Err(m);
                } else {
                    assert(out.deep_view() =~= args.deep_view() + Seq::<Seq<char>>::empty());
                }
            },
            ArgKind::Choice { value, .. } => {
                if !value.0.as_str().is_empty() {
                    push_fragment(&mut out, &self.call_name, self.use_equals, &value.0);
                } else if !self.optional {
                    let mut m = self.name.clone();
                    m.append(" is required.");
                    return Err(m);
                } else {
                    assert(out.deep_view() =~= args.deep_view() + Seq::<Seq<char>>::empty());
                }
            },
            ArgKind::Count(n) => {
                if *n > 0 {
                    match &self.call_name {
                        Some(c) => {
                            push_repeated(&mut out, c, *n);
                        },
                        None => {
                            return Err(String::from_str("Internal error."));
                        },
                    }
                } else {
                    assert(out.deep_view() =~= args.deep_view() + Seq::<Seq<char>>::empty());
                }
            },
            ArgKind::Flag(set) => {
                if *set {
                    match &self.call_name {
                        Some(c) => {
                            out.push(c.clone());
                            assert(out.deep_view() =~= args.deep_view() + seq![c@]);
                        },
                        None => {
                            return Err(String::from_str("Internal error."));
                        },
                    }
                } else {
                    assert(out.deep_view() =~= args.deep_view() + Seq::<Seq<char>>::empty());
                }
            },
            ArgKind::MultiText { values, .. } => {
                push_multi(&mut out, &self.call_name, self.use_equals, values);
            },
            ArgKind::MultiPath { values, .. } => {
                push_multi(&mut out, &self.call_name, self.use_equals, values);
            },
            ArgKind::MultiChoice { values, .. } => {
                push_multi_choice(&mut out, &self.call_name, self.use_equals, values);
            },
        }
        Ok(out)
    }
}

/// What folding a whole argument list into tokens yields, starting from
/// the already accumulated tokens `acc`: the complete token sequence in
/// schema order, or the error of the first argument that fails.
pub open spec fn build_tokens(specs: Seq<ArgState>, acc: Seq<Seq<char>>) -> Result<
    Seq<Seq<char>>,
    Seq<char>,
>
    decreases specs.len(),
{
    if specs.len() == 0 {
        Ok(acc)
    } else {
        match specs[0].spec_tokens() {
            Ok(ts) => build_tokens(specs.drop_first(), acc + ts),
            Err(m) => Err(m),
        }
    }
}

/// Folds every argument, in schema order, into one flat token vector
/// appended to `args`, short-circuiting on the first failure.
pub fn build_cmd_args(specs: &Vec<ArgState>, args: Vec<String>) -> (r: Result<Vec<String>, String>)
    ensures
        build_tokens(specs@, args.deep_view()) matches Ok(ts) ==> (r matches Ok(out)
            && out.deep_view() == ts),
        build_tokens(specs@, args.deep_view()) matches Err(m) ==> (r matches Err(e) && e@ == m),
{
    let mut out = args;
    let mut i: usize = 0;
    proof {
        assert(specs@.skip(0) =~= specs@);
    }
    while i < specs.len()
        invariant
            i <= specs.len(),
            build_tokens(specs@.skip(i as int), out.deep_view()) == build_tokens(
                specs@,
                args.deep_view(),
            ),
        decreases specs.len() - i,
    {
        proof {
            assert(specs@.skip(i as int)[0] == specs@[i as int]);
            assert(specs@.skip(i as int).drop_first() =~= specs@.skip(i as int + 1));
        }
        match specs[i].get_cmd_args(out) {
            Ok(next) => {
                out = next;
            },
            Err(e) => {
                return Err(e);
            },
        }
        i += 1;
    }
    proof {
        assert(specs@.skip(specs@.len() as int) =~= Seq::<ArgState>::empty());
    }
    Ok(out)
}

/// The call token derived from a definition: `--long` when a long name
/// exists, else `-short`, else none (a positional argument).
pub open spec fn spec_call_name(a: ArgDef) -> Option<Seq<char>> {
    match a.long {
        Some(l) => Some("--"@ + l@),
        None => match a.short {
            Some(s) => Some("-"@ + s@),
            None => None,
        },
    }
}

/// The help text derived from a definition: the long help when present,
/// else the short help, else none.
pub open spec fn spec_desc(a: ArgDef) -> Option<Seq<char>> {
    match a.long_about {
        Some(d) => Some(d@),
        None => match a.about {
            Some(d) => Some(d@),
            None => None,
        },
    }
}

/// The first default value of a definition, when any is given.
pub open spec fn first_default(a: ArgDef) -> Option<Seq<char>> {
    if a.defaults.deep_view().len() > 0 {
        Some(a.defaults.deep_view()[0])
    } else {
        None
    }
}

/// The exhaustive classification table: which shape and initial value a
/// definition's multiplicity, value-taking, hint and allowed set map to.
pub open spec fn kind_classified(a: ArgDef, k: ArgKind) -> bool {
    match a.possible {
        Some(p) => if a.multiple {
            &&& k matches ArgKind::MultiChoice { values, possible }
            &&& values@.len() == 0
            &&& possible.deep_view() == p.deep_view()
        } else {
            &&& k matches ArgKind::Choice { value, possible }
            &&& possible.deep_view() == p.deep_view()
            &&& value.0@ == if a.spec_optional() {
                Seq::<char>::empty()
            } else {
                p.deep_view()[0]
            }
        },
        None => if a.multiple && a.takes_value && a.hint.is_path() {
            &&& k matches ArgKind::MultiPath { values, default, allow_dir, allow_file }
            &&& values.deep_view() == a.defaults.deep_view()
            &&& default.deep_view() == a.defaults.deep_view()
            &&& allow_dir == a.hint.allows_dir()
            &&& allow_file == a.hint.allows_file()
        } else if a.multiple && a.takes_value {
            &&& k matches ArgKind::MultiText { values, default }
            &&& values.deep_view() == a.defaults.deep_view()
            &&& default.deep_view() == a.defaults.deep_view()
        } else if !a.multiple && a.takes_value && a.hint.is_path() {
            &&& k matches ArgKind::Path { value, default, allow_dir, allow_file }
            &&& value@ == match first_default(a) {
                Some(d) => d,
                None => Seq::<char>::empty(),
            }
            &&& default.deep_view() == first_default(a)
            &&& allow_dir == a.hint.allows_dir()
            &&& allow_file == a.hint.allows_file()
        } else if !a.multiple && a.takes_value {
            &&& k matches ArgKind::Text { value, default }
            &&& value@ == Seq::<char>::empty()
            &&& default.deep_view() == first_default(a)
        } else if a.multiple {
            k == ArgKind::Count(0)
        } else {
            k == ArgKind::Flag(false)
        },
    }
}

/// Everything the classifier promises of the state it derives from a
/// definition; the identity token of a fresh choice entry is the one
/// part left unconstrained.
pub open spec fn classified(a: ArgDef, r: ArgState) -> bool {
    &&& r.name@ == sentence_case_of(a.name@)
    &&& r.call_name.deep_view() == spec_call_name(a)
    &&& r.desc.deep_view() == spec_desc(a)
    &&& r.optional == a.spec_optional()
    &&& r.use_equals == a.use_equals
    &&& kind_classified(a, r.kind)
}

/// Clones a list of strings element by element.
fn clone_string_vec(v: &Vec<String>) -> (r: Vec<String>)
    ensures
        r.deep_view() == v.deep_view(),
{
    let mut r: Vec<String> = Vec::new();
    let mut i: usize = 0;
    while i < v.len()
        invariant
            i <= v.len(),
            r.deep_view() == v.deep_view().take(i as int),
        decreases v.len() - i,
    {
        push_token(&mut r, &v[i]);
        proof {
            assert(r.deep_view() =~= v.deep_view().take(i as int + 1));
        }
        i += 1;
    }
    proof {
        assert(v.deep_view().take(v.deep_view().len() as int) =~= v.deep_view());
    }
    r
}

impl ArgState {
    /// Classifies one schema definition into its initial editable state:
    /// the exhaustive eight-way partition over multiplicity, value-taking,
    /// path hint and allowed set, with the initial value the table gives.
    pub fn from_def(a: &ArgDef) -> (r: ArgState)
        requires
            match a.possible {
                Some(p) => a.spec_optional() || p@.len() > 0,
                None => true,
            },
        ensures
            classified(*a, r),
    {
        let name = to_sentence_case(a.name.as_str());
        let call_name = match &a.long {
            Some(l) => {
                let mut c = String::from_str("--");
                c.append(l.as_str());
                Some(c)
            },
            None => match &a.short {
                Some(s) => {
                    let mut c = String::from_str("-");
                    c.append(s.as_str());
                    Some(c)
                },
                None => None,
            },
        };
        let desc = match &a.long_about {
            Some(d) => Some(d.clone()),
            None => match &a.about {
                Some(d) => Some(d.clone()),
                None => None,
            },
        };
        let optional = !a.required && !a.forbid_empty;
        let kind = match &a.possible {
            Some(p) => {
                if a.multiple {
                    ArgKind::MultiChoice { values: Vec::new(), possible: clone_string_vec(p) }
                } else {
                    let selected = if optional {
                        String::new()
                    } else {
                        p[0].clone()
                    };
                    ArgKind::Choice {
                        value: ChooseState(selected, fresh_uuid()),
                        possible: clone_string_vec(p),
                    }
                }
            },
            None => {
                if a.multiple && a.takes_value && a.hint.is_path_hint() {
                    ArgKind::MultiPath {
                        values: clone_string_vec(&a.defaults),
                        default: clone_string_vec(&a.defaults),
                        allow_dir: a.hint.dir_allowed(),
                        allow_file: a.hint.file_allowed(),
                    }
                } else if a.multiple && a.takes_value {
                    ArgKind::MultiText {
                        values: clone_string_vec(&a.defaults),
                        default: clone_string_vec(&a.defaults),
                    }
                } else if !a.multiple && a.takes_value && a.hint.is_path_hint() {
                    let default = if a.defaults.len() > 0 {
                        Some(a.defaults[0].clone())
                    } else {
                        None
                    };
                    let value = match &default {
                        Some(d) => d.clone(),
                        None => String::new(),
                    };
                    ArgKind::Path {
                        value,
                        default,
                        allow_dir: a.hint.dir_allowed(),
                        allow_file: a.hint.file_allowed(),
                    }
                } else if !a.multiple && a.takes_value {
                    let default = if a.defaults.len() > 0 {
                        Some(a.defaults[0].clone())
                    } else {
                        None
                    };
                    ArgKind::Text { value: String::new(), default }
                } else if a.multiple {
                    ArgKind::Count(0)
                } else {
                    ArgKind::Flag(false)
                }
            },
        };
        ArgState { name, call_name, desc, optional, use_equals: a.use_equals, kind }
    }
}

/// How an edit of the argument called `name` affects the active
/// validation error: an error naming that argument is cleared, any other
/// error (or no error) is kept as it was.
pub open spec fn error_cleared(
    name: Seq<char>,
    before: Option<ValidationErrorInfo>,
    after: Option<ValidationErrorInfo>,
) -> bool {
    match before {
        Some(e) => if e.spec_names(name) {
            after is None
        } else {
            after == before
        },
        None => after is None,
    }
}

/// Drops the active validation error when it names this argument.
fn clear_error(name: &String, validation_error: &mut Option<ValidationErrorInfo>)
    ensures
        error_cleared(name@, *old(validation_error), *final(validation_error)),
{
    let clear = match &*validation_error {
        Some(e) => e.is(name).is_some(),
        None => false,
    };
    if clear {
        *validation_error = None;
    }
}

/// Both states carry the same schema-derived identity; only the value
/// may differ.
pub open spec fn same_identity(a: ArgState, b: ArgState) -> bool {
    &&& b.name == a.name
    &&& b.call_name == a.call_name
    &&& b.desc == a.desc
    &&& b.optional == a.optional
    &&& b.use_equals == a.use_equals
}

/// The single current value was replaced by `v`; everything else about
/// the kind (defaults, path permissions, allowed set, identity token) is
/// untouched.
pub open spec fn single_value_set(before: ArgKind, after: ArgKind, v: Seq<char>) -> bool {
    match (before, after) {
        (
            ArgKind::Text { value: _, default: d1 },
            ArgKind::Text { value: v2, default: d2 },
        ) => v2@ == v && d2 == d1,
        (
            ArgKind::Path { value: _, default: d1, allow_dir: a1, allow_file: f1 },
            ArgKind::Path { value: v2, default: d2, allow_dir: a2, allow_file: f2 },
        ) => v2@ == v && d2 == d1 && a2 == a1 && f2 == f1,
        (
            ArgKind::Choice { value: c1, possible: p1 },
            ArgKind::Choice { value: c2, possible: p2 },
        ) => c2.0@ == v && c2.1 == c1.1 && p2 == p1,
        _ => false,
    }
}

/// The value list was replaced by `vs`; the defaults and path
/// permissions are untouched.
pub open spec fn multi_values_set(before: ArgKind, after: ArgKind, vs: Seq<Seq<char>>) -> bool {
    match (before, after) {
        (
            ArgKind::MultiText { values: _, default: d1 },
            ArgKind::MultiText { values: v2, default: d2 },
        ) => v2.deep_view() == vs && d2 == d1,
        (
            ArgKind::MultiPath { values: _, default: d1, allow_dir: a1, allow_file: f1 },
            ArgKind::MultiPath { values: v2, default: d2, allow_dir: a2, allow_file: f2 },
        ) => v2.deep_view() == vs && d2 == d1 && a2 == a1 && f2 == f1,
        _ => false,
    }
}

impl ArgState {
    /// Replaces the current value of a single-valued argument (Text, Path
    /// or Choice) and clears this argument's validation error. A Choice
    /// only accepts the empty selection or a member of its allowed set.
    pub fn set_value(&mut self, value: String, validation_error: &mut Option<ValidationErrorInfo>)
        requires
            old(self).kind matches ArgKind::Text { .. } || old(self).kind matches ArgKind::Path {
                ..
            } || old(self).kind matches ArgKind::Choice { .. },
            old(self).kind matches ArgKind::Choice { possible, .. } ==> (value@ == Seq::<
                char,
            >::empty() || possible.deep_view().contains(value@)),
        ensures
            same_identity(*old(self), *final(self)),
            single_value_set(old(self).kind, final(self).kind, value@),
            choice_valid(final(self).kind),
            error_cleared(old(self).name@, *old(validation_error), *final(validation_error)),
    {
        match &mut self.kind {
            ArgKind::Text { value: slot, .. } => {
                *slot = value;
            },
            ArgKind::Path { value: slot, .. } => {
                *slot = value;
            },
            ArgKind::Choice { value: slot, .. } => {
                slot.0 = value;
            },
            _ => {
                proof {
                    assert(false);
                }
            },
        }
        clear_error(&self.name, validation_error);
    }

    /// Replaces the value list of a multi-valued text or path argument
    /// and clears this argument's validation error.
    pub fn set_values(
        &mut self,
        values: Vec<String>,
        validation_error: &mut Option<ValidationErrorInfo>,
    )
        requires
            old(self).kind matches ArgKind::MultiText { .. } || old(
                self,
            ).kind matches ArgKind::MultiPath { .. },
        ensures
            same_identity(*old(self), *final(self)),
            multi_values_set(old(self).kind, final(self).kind, values.deep_view()),
            error_cleared(old(self).name@, *old(validation_error), *final(validation_error)),
    {
        match &mut self.kind {
            ArgKind::MultiText { values: slot, .. } => {
                *slot = values;
            },
            ArgKind::MultiPath { values: slot, .. } => {
                *slot = values;
            },
            _ => {
                proof {
                    assert(false);
                }
            },
        }
        clear_error(&self.name, validation_error);
    }

    /// Replaces the selected string of one entry of a multi-choice
    /// argument, keeping its identity token, and clears this argument's
    /// validation error. An entry only accepts the empty selection or a
    /// member of the allowed set.
    pub fn set_choice_entry(
        &mut self,
        i: usize,
        value: String,
        validation_error: &mut Option<ValidationErrorInfo>,
    )
        requires
            old(self).kind matches ArgKind::MultiChoice { values, .. } && i < values@.len(),
            old(self).kind matches ArgKind::MultiChoice { possible, .. } ==> (value@ == Seq::<
                char,
            >::empty() || possible.deep_view().contains(value@)),
        ensures
            choice_valid(old(self).kind) ==> choice_valid(final(self).kind),
            same_identity(*old(self), *final(self)),
            old(self).kind matches ArgKind::MultiChoice { values: v1, possible: p1 }
                && final(self).kind matches ArgKind::MultiChoice { values: v2, possible: p2 }
                && p2 == p1 && v2@.len() == v1@.len() && v2@[i as int].0@ == value@
                && v2@[i as int].1 == v1@[i as int].1 && (forall|j: int|
                0 <= j < v1@.len() && j != i ==> v2@[j] == v1@[j]),
            error_cleared(old(self).name@, *old(validation_error), *final(validation_error)),
    {
        match &mut self.kind {
            ArgKind::MultiChoice { values, .. } => {
                values[i].0 = value;
            },
            _ => {
                proof {
                    assert(false);
                }
            },
        }
        clear_error(&self.name, validation_error);
    }

    /// Sets a Flag argument and clears this argument's validation error.
    pub fn set_flag(&mut self, set: bool, validation_error: &mut Option<ValidationErrorInfo>)
        requires
            old(self).kind matches ArgKind::Flag(_),
        ensures
            same_identity(*old(self), *final(self)),
            final(self).kind == ArgKind::Flag(set),
            error_cleared(old(self).name@, *old(validation_error), *final(validation_error)),
    {
        match &mut self.kind {
            ArgKind::Flag(slot) => {
                *slot = set;
            },
            _ => {
                proof {
                    assert(false);
                }
            },
        }
        clear_error(&self.name, validation_error);
    }

    /// Raises a Count argument by one, saturating at the largest
    /// representable value, and clears this argument's validation error.
    pub fn increment(&mut self, validation_error: &mut Option<ValidationErrorInfo>)
        requires
            old(self).kind matches ArgKind::Count(_),
        ensures
            same_identity(*old(self), *final(self)),
            old(self).kind matches ArgKind::Count(n) && final(self).kind == ArgKind::Count(
                if n < u64::MAX {
                    (n + 1) as u64
                } else {
                    u64::MAX
                },
            ),
            error_cleared(old(self).name@, *old(validation_error), *final(validation_error)),
    {
        match &mut self.kind {
            ArgKind::Count(n) => {
                if *n < u64::MAX {
                    *n = *n + 1;
                }
            },
            _ => {
                proof {
                    assert(false);
                }
            },
        }
        clear_error(&self.name, validation_error);
    }

    /// Lowers a Count argument by one, clamping at zero, and clears this
    /// argument's validation error.
    pub fn decrement(&mut self, validation_error: &mut Option<ValidationErrorInfo>)
        requires
            old(self).kind matches ArgKind::Count(_),
        ensures
            same_identity(*old(self), *final(self)),
            old(self).kind matches ArgKind::Count(n) && final(self).kind == ArgKind::Count(
                if n > 0 {
                    (n - 1) as u64
                } else {
                    0
                },
            ),
            error_cleared(old(self).name@, *old(validation_error), *final(validation_error)),
    {
        match &mut self.kind {
            ArgKind::Count(n) => {
                if *n > 0 {
                    *n = *n - 1;
                }
            },
            _ => {
                proof {
                    assert(false);
                }
            },
        }
        clear_error(&self.name, validation_error);
    }
}

/// Both kinds have the same shape and the same observable content;
/// identity tokens of choice entries are the one part not compared.
pub open spec fn kind_observable_eq(k1: ArgKind, k2: ArgKind) -> bool {
    match (k1, k2) {
        (
            ArgKind::Text { value: v1, default: d1 },
            ArgKind::Text { value: v2, default: d2 },
        ) => v1@ == v2@ && d1.deep_view() == d2.deep_view(),
        (
            ArgKind::MultiText { values: v1, default: d1 },
            ArgKind::MultiText { values: v2, default: d2 },
        ) => v1.deep_view() == v2.deep_view() && d1.deep_view() == d2.deep_view(),
        (ArgKind::Count(n1), ArgKind::Count(n2)) => n1 == n2,
        (ArgKind::Flag(b1), ArgKind::Flag(b2)) => b1 == b2,
        (
            ArgKind::Path { value: v1, default: d1, allow_dir: a1, allow_file: f1 },
            ArgKind::Path { value: v2, default: d2, allow_dir: a2, allow_file: f2 },
        ) => v1@ == v2@ && d1.deep_view() == d2.deep_view() && a1 == a2 && f1 == f2,
        (
            ArgKind::MultiPath { values: v1, default: d1, allow_dir: a1, allow_file: f1 },
            ArgKind::MultiPath { values: v2, default: d2, allow_dir: a2, allow_file: f2 },
        ) => v1.deep_view() == v2.deep_view() && d1.deep_view() == d2.deep_view() && a1 == a2 && f1
            == f2,
        (
            ArgKind::Choice { value: c1, possible: p1 },
            ArgKind::Choice { value: c2, possible: p2 },
        ) => c1.0@ == c2.0@ && p1.deep_view() == p2.deep_view(),
        (
            ArgKind::MultiChoice { values: v1, possible: p1 },
            ArgKind::MultiChoice { values: v2, possible: p2 },
        ) => choice_strings(v1@) == choice_strings(v2@) && p1.deep_view() == p2.deep_view(),
        _ => false,
    }
}

/// Both states agree on identity, shape and observable value.
pub open spec fn observable_eq(a: ArgState, b: ArgState) -> bool {
    &&& a.name@ == b.name@
    &&& a.call_name.deep_view() == b.call_name.deep_view()
    &&& a.desc.deep_view() == b.desc.deep_view()
    &&& a.optional == b.optional
    &&& a.use_equals == b.use_equals
    &&& kind_observable_eq(a.kind, b.kind)
}

/// The classifier is a deterministic function of the definition:
/// any two states it derives from the same definition agree on the shape
/// and the initial value (identity tokens of choice entries aside). It
/// is also total: `classified` constrains the result for every
/// definition, by the exhaustive table in [`kind_classified`].
pub proof fn lemma_classifier_deterministic(a: ArgDef, r1: ArgState, r2: ArgState)
    requires
        classified(a, r1),
        classified(a, r2),
    ensures
        observable_eq(r1, r2),
{
    match (r1.kind, r2.kind) {
        (
            ArgKind::MultiChoice { values: v1, .. },
            ArgKind::MultiChoice { values: v2, .. },
        ) => {
            assert(choice_strings(v1@) =~= choice_strings(v2@));
        },
        _ => {},
    }
}

/// A required single-valued argument (Text, Path or Choice) holding an
/// empty value makes the build fail, with the message naming the
/// argument and with no tokens produced for it.
pub proof fn lemma_required_empty_fails(s: ArgState)
    requires
        !s.optional,
        match s.kind {
            ArgKind::Text { value, .. } => value@.len() == 0,
            ArgKind::Path { value, .. } => value@.len() == 0,
            ArgKind::Choice { value, .. } => value.0@.len() == 0,
            _ => false,
        },
    ensures
        s.spec_tokens() == Err::<Seq<Seq<char>>, Seq<char>>(required_message(s.name@)),
{
}

/// When the first `i` arguments serialize and the next one fails, the
/// whole build yields exactly that argument's error: no tokens built up
/// to that point leak out.
pub proof fn lemma_build_short_circuits(specs: Seq<ArgState>, acc: Seq<Seq<char>>, i: int)
    requires
        0 <= i < specs.len(),
        forall|j: int| 0 <= j < i ==> specs[j].spec_tokens() is Ok,
        specs[i].spec_tokens() is Err,
    ensures
        build_tokens(specs, acc) == Err::<Seq<Seq<char>>, Seq<char>>(
            specs[i].spec_tokens()->Err_0,
        ),
    decreases i,
{
    if i > 0 {
        assert forall|j: int| 0 <= j < i - 1 implies specs.drop_first()[j].spec_tokens() is Ok by {
            assert(specs.drop_first()[j] == specs[j + 1]);
        }
        assert(specs.drop_first()[i - 1] == specs[i]);
        lemma_build_short_circuits(
            specs.drop_first(),
            acc + specs[0].spec_tokens()->Ok_0,
            i - 1,
        );
    }
}

/// A multi-valued argument (MultiText, MultiPath or MultiChoice) with an
/// empty list contributes nothing and never fails, whether or not the
/// argument is optional.
pub proof fn lemma_empty_list_never_fails(s: ArgState)
    requires
        match s.kind {
            ArgKind::MultiText { values, .. } => values@.len() == 0,
            ArgKind::MultiPath { values, .. } => values@.len() == 0,
            ArgKind::MultiChoice { values, .. } => values@.len() == 0,
            _ => false,
        },
    ensures
        s.spec_tokens() == Ok::<Seq<Seq<char>>, Seq<char>>(Seq::<Seq<char>>::empty()),
{
    match s.kind {
        ArgKind::MultiText { values, .. } => {
            assert(values.deep_view() =~= Seq::<Seq<char>>::empty());
        },
        ArgKind::MultiPath { values, .. } => {
            assert(values.deep_view() =~= Seq::<Seq<char>>::empty());
        },
        ArgKind::MultiChoice { values, .. } => {
            assert(choice_strings(values@) =~= Seq::<Seq<char>>::empty());
        },
        _ => {},
    }
}

/// The invariant of enumerated values: a Choice selection, and every
/// entry of a MultiChoice, is either empty or a member of the allowed
/// set.
pub open spec fn choice_valid(k: ArgKind) -> bool {
    match k {
        ArgKind::Choice { value, possible } => value.0@ == Seq::<char>::empty()
            || possible.deep_view().contains(value.0@),
        ArgKind::MultiChoice { values, possible } => forall|i: int|
            0 <= i < values@.len() ==> values@[i].0@ == Seq::<char>::empty()
                || possible.deep_view().contains(#[trigger] values@[i].0@),
        _ => true,
    }
}

/// Classification establishes the enumerated-value invariant: a fresh
/// Choice selects the first allowed value or nothing, and a fresh
/// MultiChoice holds no entries.
pub proof fn lemma_classified_choice_valid(a: ArgDef, r: ArgState)
    requires
        classified(a, r),
        match a.possible {
            Some(p) => a.spec_optional() || p@.len() > 0,
            None => true,
        },
    ensures
        choice_valid(r.kind),
{
    match r.kind {
        ArgKind::Choice { value, possible } => {
            if !a.spec_optional() {
                assert(possible.deep_view()[0] == value.0@);
                assert(possible.deep_view().contains(value.0@));
            }
        },
        _ => {},
    }
}

/// The token sequences of every argument in the list, each group in
/// place, assuming each serializes.
pub open spec fn all_tokens(specs: Seq<ArgState>) -> Seq<Seq<char>>
    decreases specs.len(),
{
    if specs.len() == 0 {
        Seq::empty()
    } else {
        specs[0].spec_tokens()->Ok_0 + all_tokens(specs.drop_first())
    }
}

/// When every argument serializes, the build succeeds and yields exactly
/// the per-argument token groups concatenated in schema order — each
/// multi-valued group interleaved in place, none moved to the end.
pub proof fn lemma_build_concatenates(specs: Seq<ArgState>, acc: Seq<Seq<char>>)
    requires
        forall|j: int| 0 <= j < specs.len() ==> (#[trigger] specs[j].spec_tokens()) is Ok,
    ensures
        build_tokens(specs, acc) == Ok::<Seq<Seq<char>>, Seq<char>>(acc + all_tokens(specs)),
    decreases specs.len(),
{
    if specs.len() == 0 {
        assert(acc + all_tokens(specs) =~= acc);
    } else {
        assert forall|j: int| 0 <= j < specs.drop_first().len() implies (#[trigger] specs
            .drop_first()[j].spec_tokens()) is Ok by {
            assert(specs.drop_first()[j] == specs[j + 1]);
        }
        lemma_build_concatenates(specs.drop_first(), acc + specs[0].spec_tokens()->Ok_0);
        assert((acc + specs[0].spec_tokens()->Ok_0) + all_tokens(specs.drop_first()) =~= acc + (
        specs[0].spec_tokens()->Ok_0 + all_tokens(specs.drop_first())));
    }
}

/// Identity tokens carry no serialization meaning: two states that agree
/// on everything observable serialize identically.
pub proof fn lemma_tokens_ignore_identity(a: ArgState, b: ArgState)
    requires
        observable_eq(a, b),
    ensures
        a.spec_tokens() == b.spec_tokens(),
{
}

} // verus!
