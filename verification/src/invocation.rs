//! How a process learns which stage it is and what to launch: the role and
//! the configuration, written as process arguments and read back.
//!
//! The arguments are a subcommand followed by flags, each flag followed by
//! its value:
//!
//! ```text
//! run   --rootfs <path> [--command <path>] [--hostname <name>]
//! child --rootfs <path> --command <path> --hostname <name>
//! init  --rootfs <path> --command <path> --hostname <name>
//! ```
//!
//! `run` is what a user types. `child` and `init` are how the launcher calls
//! itself to start the relay and init: a fresh program image inherits no
//! memory, so the configuration has to travel as arguments.
use crate::config::{ConfigView, ContainerConfig};
use crate::step::texts;
use vstd::prelude::*;
use vstd::string::*;

verus! {

/// The stage a process runs as.
#[derive(Debug, Clone, Copy, PartialEq, Eq, Structural)]
pub enum Role {
    /// Creates the relay in new namespaces and reports how the container
    /// ended.
    Host,
    /// Lives in the new namespaces, but not yet in the new PID namespace;
    /// creates init, which does.
    Relay,
    /// Process 1 of the container: sets it up and becomes the command.
    Init,
}

/// One of the three fields of a configuration.
#[derive(Debug, Clone, Copy, PartialEq, Eq, Structural)]
pub enum Field {
    Rootfs,
    Command,
    Hostname,
}

/// Why a list of arguments is no invocation.
#[derive(Debug, Clone, Copy, PartialEq, Eq, Structural)]
pub enum UsageError {
    /// There is no argument at all.
    MissingSubcommand,
    /// The first argument names none of the three subcommands.
    UnknownSubcommand,
    /// Where a flag has to stand, at index `position`, stands something else.
    UnexpectedArgument { position: usize },
    /// The flag of `field` occurs a second time.
    DuplicateFlag { field: Field },
    /// The flag of `field` is the last argument: its value is missing.
    MissingValue { field: Field },
    /// The value given for `field` is the empty string.
    EmptyValue { field: Field },
    /// `field` is not given and the subcommand has no default for it.
    MissingFlag { field: Field },
}

/// A role together with the configuration to launch.
#[derive(Debug, Clone, PartialEq, Eq)]
pub struct Invocation {
    pub role: Role,
    pub config: ContainerConfig,
}

/// An invocation with its configuration as sequences of characters.
pub struct InvocationView {
    pub role: Role,
    pub config: ConfigView,
}

impl View for Invocation {
    type V = InvocationView;

    open spec fn view(&self) -> InvocationView {
        InvocationView { role: self.role, config: self.config@ }
    }
}

/// The subcommand that selects `role`.
pub open spec fn subcommand(role: Role) -> Seq<char> {
    match role {
        Role::Host => "run"@,
        Role::Relay => "child"@,
        Role::Init => "init"@,
    }
}

/// The role that `text` selects as a subcommand, if it selects one.
pub open spec fn role_named(text: Seq<char>) -> Option<Role> {
    if text == subcommand(Role::Host) {
        Some(Role::Host)
    } else if text == subcommand(Role::Relay) {
        Some(Role::Relay)
    } else if text == subcommand(Role::Init) {
        Some(Role::Init)
    } else {
        None
    }
}

/// The flag that announces the value of `field`.
pub open spec fn flag(field: Field) -> Seq<char> {
    match field {
        Field::Rootfs => "--rootfs"@,
        Field::Command => "--command"@,
        Field::Hostname => "--hostname"@,
    }
}

/// The field that `text` announces as a flag, if it is a flag.
pub open spec fn field_flagged(text: Seq<char>) -> Option<Field> {
    if text == flag(Field::Rootfs) {
        Some(Field::Rootfs)
    } else if text == flag(Field::Command) {
        Some(Field::Command)
    } else if text == flag(Field::Hostname) {
        Some(Field::Hostname)
    } else {
        None
    }
}

/// The command of a `run` that names none.
pub open spec fn default_command() -> Seq<char> {
    "/bin/sh"@
}

/// The host name of a `run` that names none.
pub open spec fn default_hostname() -> Seq<char> {
    "rustyrun-container"@
}

/// The values read so far, by field.
pub struct Gathered {
    pub rootfs: Option<Seq<char>>,
    pub command: Option<Seq<char>>,
    pub hostname: Option<Seq<char>>,
}

impl Gathered {
    /// No value read yet.
    pub open spec fn nothing() -> Gathered {
        Gathered { rootfs: None, command: None, hostname: None }
    }

    /// The value read for `field`, if one was.
    pub open spec fn get(self, field: Field) -> Option<Seq<char>> {
        match field {
            Field::Rootfs => self.rootfs,
            Field::Command => self.command,
            Field::Hostname => self.hostname,
        }
    }

    /// The same values, with `value` read for `field`.
    pub open spec fn put(self, field: Field, value: Seq<char>) -> Gathered {
        match field {
            Field::Rootfs => Gathered { rootfs: Some(value), ..self },
            Field::Command => Gathered { command: Some(value), ..self },
            Field::Hostname => Gathered { hostname: Some(value), ..self },
        }
    }

    /// No value read is empty.
    pub open spec fn filled(self) -> bool {
        forall|field: Field| (#[trigger] self.get(field)) matches Some(value) ==> value.len() > 0
    }
}

/// Reads flags and values from index `from` on, after `seen` was read before
/// it. At every other index stands a flag, behind it its value; a flag may
/// come once, and a value may not be empty. The first argument that breaks
/// this decides the error.
pub open spec fn gather(args: Seq<Seq<char>>, from: int, seen: Gathered) -> Result<
    Gathered,
    UsageError,
>
    decreases args.len() - from,
{
    if from < 0 || from >= args.len() {
        Ok(seen)
    } else {
        match field_flagged(args[from]) {
            None => Err(UsageError::UnexpectedArgument { position: from as usize }),
            Some(field) => if seen.get(field) is Some {
                Err(UsageError::DuplicateFlag { field })
            } else if from + 1 >= args.len() {
                Err(UsageError::MissingValue { field })
            } else if args[from + 1].len() == 0 {
                Err(UsageError::EmptyValue { field })
            } else {
                gather(args, from + 2, seen.put(field, args[from + 1]))
            },
        }
    }
}

/// The value of `field` for `role`: the one that was read, else the default
/// that `run` has for the command and for the host name.
pub open spec fn settled(role: Role, seen: Gathered, field: Field) -> Option<Seq<char>> {
    match seen.get(field) {
        Some(value) => Some(value),
        None => if role == Role::Host && field == Field::Command {
            Some(default_command())
        } else if role == Role::Host && field == Field::Hostname {
            Some(default_hostname())
        } else {
            None
        },
    }
}

/// The invocation of `role` with the values `seen`, or the first field, in
/// the order root, command, host name, that has neither value nor default.
pub open spec fn settle(role: Role, seen: Gathered) -> Result<InvocationView, UsageError> {
    match (
        settled(role, seen, Field::Rootfs),
        settled(role, seen, Field::Command),
        settled(role, seen, Field::Hostname),
    ) {
        (None, _, _) => Err(UsageError::MissingFlag { field: Field::Rootfs }),
        (Some(_), None, _) => Err(UsageError::MissingFlag { field: Field::Command }),
        (Some(_), Some(_), None) => Err(UsageError::MissingFlag { field: Field::Hostname }),
        (Some(rootfs), Some(command), Some(hostname)) => Ok(
            InvocationView { role, config: ConfigView { rootfs, command, hostname } },
        ),
    }
}

/// What a list of arguments means: the invocation it spells, or why it spells
/// none.
pub open spec fn parse_spec(args: Seq<Seq<char>>) -> Result<InvocationView, UsageError> {
    if args.len() == 0 {
        Err(UsageError::MissingSubcommand)
    } else {
        match role_named(args[0]) {
            None => Err(UsageError::UnknownSubcommand),
            Some(role) => match gather(args, 1, Gathered::nothing()) {
                Err(error) => Err(error),
                Ok(seen) => settle(role, seen),
            },
        }
    }
}

/// The arguments that spell `role` with `config`: the subcommand, then each
/// field's flag and value, root first, command second, host name last.
pub open spec fn marshal_spec(role: Role, config: ConfigView) -> Seq<Seq<char>> {
    seq![
        subcommand(role),
        flag(Field::Rootfs),
        config.rootfs,
        flag(Field::Command),
        config.command,
        flag(Field::Hostname),
        config.hostname,
    ]
}

/// The three subcommands and the three flags are six different texts, and
/// neither default is empty.
pub proof fn lemma_keywords()
    ensures
        forall|role: Role| #[trigger] role_named(subcommand(role)) == Some(role),
        forall|field: Field| #[trigger] field_flagged(flag(field)) == Some(field),
        forall|role: Role, field: Field| #[trigger] subcommand(role) != #[trigger] flag(field),
        default_command().len() > 0,
        default_hostname().len() > 0,
{
    reveal_strlit("run");
    reveal_strlit("child");
    reveal_strlit("init");
    reveal_strlit("--rootfs");
    reveal_strlit("--command");
    reveal_strlit("--hostname");
    reveal_strlit("/bin/sh");
    reveal_strlit("rustyrun-container");
    assert("run"@.len() == 3 && "child"@.len() == 5 && "init"@.len() == 4);
    assert("--rootfs"@.len() == 8 && "--command"@.len() == 9 && "--hostname"@.len() == 10);
    assert forall|role: Role| #[trigger] role_named(subcommand(role)) == Some(role) by {}
    assert forall|field: Field| #[trigger] field_flagged(flag(field)) == Some(field) by {}
    assert forall|role: Role, field: Field| #[trigger]
        subcommand(role) != #[trigger] flag(field) by {}
}

/// The flags may come in any order: whichever of the three fields is written
/// first, second and third, the arguments spell the same invocation.
pub proof fn lemma_order_of_flags_is_free(
    role: Role,
    config: ConfigView,
    first: Field,
    second: Field,
    third: Field,
)
    requires
        config.well_formed(),
        first != second,
        first != third,
        second != third,
    ensures
        ({
            let given = Gathered {
                rootfs: Some(config.rootfs),
                command: Some(config.command),
                hostname: Some(config.hostname),
            };
            parse_spec(
                seq![
                    subcommand(role),
                    flag(first),
                    given.get(first)->Some_0,
                    flag(second),
                    given.get(second)->Some_0,
                    flag(third),
                    given.get(third)->Some_0,
                ],
            ) == Ok::<InvocationView, UsageError>(InvocationView { role, config })
        }),
{
    lemma_keywords();
    let given = Gathered {
        rootfs: Some(config.rootfs),
        command: Some(config.command),
        hostname: Some(config.hostname),
    };
    let args = seq![
        subcommand(role),
        flag(first),
        given.get(first)->Some_0,
        flag(second),
        given.get(second)->Some_0,
        flag(third),
        given.get(third)->Some_0,
    ];
    let none = Gathered::nothing();
    let one = none.put(first, args[2]);
    let two = one.put(second, args[4]);
    let three = two.put(third, args[6]);
    assert(three == given);
    assert(gather(args, 7, three) == Ok::<Gathered, UsageError>(three));
    assert(field_flagged(args[5]) == Some(third));
    assert(gather(args, 5, two) == gather(args, 7, three));
    assert(field_flagged(args[3]) == Some(second));
    assert(gather(args, 3, one) == gather(args, 5, two));
    assert(field_flagged(args[1]) == Some(first));
    assert(gather(args, 1, none) == gather(args, 3, one));
    assert(role_named(args[0]) == Some(role));
}

/// Writing an invocation down and reading it back gives the invocation: the
/// role and each of the three fields, character for character.
pub proof fn lemma_round_trip(role: Role, config: ConfigView)
    requires
        config.well_formed(),
    ensures
        parse_spec(marshal_spec(role, config)) == Ok::<InvocationView, UsageError>(
            InvocationView { role, config },
        ),
{
    lemma_order_of_flags_is_free(role, config, Field::Rootfs, Field::Command, Field::Hostname);
}

/// A `run` that names the root alone launches a shell under the standard
/// host name.
pub proof fn lemma_run_defaults(rootfs: Seq<char>)
    requires
        rootfs.len() > 0,
    ensures
        parse_spec(seq![subcommand(Role::Host), flag(Field::Rootfs), rootfs]) == Ok::<
            InvocationView,
            UsageError,
        >(
            InvocationView {
                role: Role::Host,
                config: ConfigView {
                    rootfs,
                    command: default_command(),
                    hostname: default_hostname(),
                },
            },
        ),
{
    lemma_keywords();
    let args = seq![subcommand(Role::Host), flag(Field::Rootfs), rootfs];
    let one = Gathered::nothing().put(Field::Rootfs, rootfs);
    assert(gather(args, 3, one) == Ok::<Gathered, UsageError>(one));
    assert(field_flagged(args[1]) == Some(Field::Rootfs));
    assert(gather(args, 1, Gathered::nothing()) == gather(args, 3, one));
    assert(role_named(args[0]) == Some(Role::Host));
}

/// Different invocations are written differently: the arguments tell the
/// role and every field.
pub proof fn lemma_marshal_is_injective(
    role: Role,
    config: ConfigView,
    other_role: Role,
    other_config: ConfigView,
)
    requires
        marshal_spec(role, config) == marshal_spec(other_role, other_config),
    ensures
        role == other_role,
        config == other_config,
{
    lemma_keywords();
    let args = marshal_spec(role, config);
    let other = marshal_spec(other_role, other_config);
    assert(role_named(args[0]) == Some(role));
    assert(role_named(other[0]) == Some(other_role));
    assert(args[2] == other[2] && args[4] == other[4] && args[6] == other[6]);
}

impl Gathered {
    /// How many of the three fields have a value.
    pub open spec fn count(self) -> nat {
        (if self.rootfs is Some {
            1nat
        } else {
            0nat
        }) + (if self.command is Some {
            1nat
        } else {
            0nat
        }) + (if self.hostname is Some {
            1nat
        } else {
            0nat
        })
    }
}

/// Reading takes two arguments for every field it adds, and leaves none
/// over.
pub proof fn lemma_gather_takes_pairs(args: Seq<Seq<char>>, from: int, seen: Gathered)
    requires
        0 <= from <= args.len(),
    ensures
        gather(args, from, seen) matches Ok(all) ==> args.len() - from == 2 * (all.count()
            - seen.count()),
    decreases args.len() - from,
{
    if from < args.len() {
        if let Some(field) = field_flagged(args[from]) {
            if seen.get(field) is None && from + 1 < args.len() && args[from + 1].len() > 0 {
                let more = seen.put(field, args[from + 1]);
                assert(more.count() == seen.count() + 1);
                lemma_gather_takes_pairs(args, from + 2, more);
            }
        }
    }
}

/// Whether the flag of `field` stands in `args` at index `from` or behind.
pub open spec fn announced(args: Seq<Seq<char>>, from: int, field: Field) -> bool {
    exists|at: int| #![trigger args[at]] from <= at < args.len() && args[at] == flag(field)
}

/// Every field that reading adds stands in the arguments, announced by its
/// flag.
pub proof fn lemma_gather_names_its_flags(args: Seq<Seq<char>>, from: int, seen: Gathered)
    requires
        0 <= from <= args.len(),
    ensures
        gather(args, from, seen) matches Ok(all) ==> forall|field: Field|
            (#[trigger] all.get(field)) is Some && seen.get(field) is None ==> announced(
                args,
                from,
                field,
            ),
    decreases args.len() - from,
{
    if from < args.len() {
        if let Some(field) = field_flagged(args[from]) {
            if seen.get(field) is None && from + 1 < args.len() && args[from + 1].len() > 0 {
                let more = seen.put(field, args[from + 1]);
                lemma_gather_names_its_flags(args, from + 2, more);
                if let Ok(all) = gather(args, from, seen) {
                    assert forall|other: Field|
                        (#[trigger] all.get(other)) is Some && seen.get(other)
                            is None implies announced(args, from, other) by {
                        if other == field {
                            assert(args[from] == flag(field));
                        } else {
                            assert(more.get(other) is None);
                            assert(announced(args, from + 2, other));
                            let at: int = choose|at: int|
                                #![trigger args[at]]
                                from + 2 <= at < args.len() && args[at] == flag(other);
                            assert(args[at] == flag(other));
                        }
                    }
                }
            }
        }
    }
}

/// An invocation is a subcommand and one pair of arguments for each field it
/// gives. Relay and init are given all three fields, in seven arguments; a
/// `run` may leave the command or the host name to its default, or both, but
/// not the root.
pub proof fn lemma_shape_of_an_invocation(args: Seq<Seq<char>>)
    ensures
        parse_spec(args) matches Ok(invocation) ==> {
            &&& role_named(args[0]) == Some(invocation.role)
            &&& announced(args, 1, Field::Rootfs)
            &&& invocation.role != Role::Host ==> args.len() == 7
            &&& invocation.role == Role::Host ==> args.len() == 3 || args.len() == 5 || args.len()
                == 7
            &&& args.len() == 7 ==> forall|field: Field| #[trigger] announced(args, 1, field)
        },
{
    lemma_keywords();
    if args.len() > 0 {
        let none = Gathered::nothing();
        lemma_gather_takes_pairs(args, 1, none);
        lemma_gather_names_its_flags(args, 1, none);
        if let Ok(seen) = gather(args, 1, none) {
            if parse_spec(args) is Ok {
                assert(seen.get(Field::Rootfs) is Some);
                assert(none.get(Field::Rootfs) is None);
                if args.len() == 7 {
                    assert(seen.count() == 3);
                    assert forall|field: Field| #[trigger] announced(args, 1, field) by {
                        assert(seen.get(field) is Some);
                        assert(none.get(field) is None);
                    }
                }
            }
        }
    }
}

/// Reading keeps what was read before and adds no empty value.
pub proof fn lemma_gather_filled(args: Seq<Seq<char>>, from: int, seen: Gathered)
    requires
        seen.filled(),
    ensures
        gather(args, from, seen) matches Ok(all) ==> all.filled(),
    decreases args.len() - from,
{
    if 0 <= from < args.len() {
        if let Some(field) = field_flagged(args[from]) {
            if seen.get(field) is None && from + 1 < args.len() && args[from + 1].len() > 0 {
                let more = seen.put(field, args[from + 1]);
                assert forall|other: Field| (#[trigger] more.get(other)) matches Some(value)
                    ==> value.len() > 0 by {
                    if other != field {
                        assert(more.get(other) == seen.get(other));
                    }
                }
                lemma_gather_filled(args, from + 2, more);
            }
        }
    }
}

/// Whatever arguments spell an invocation spell one whose configuration has
/// all three fields, none of them empty.
pub proof fn lemma_parsed_is_well_formed(args: Seq<Seq<char>>)
    ensures
        parse_spec(args) matches Ok(invocation) ==> invocation.config.well_formed(),
{
    lemma_keywords();
    if args.len() > 0 {
        assert(Gathered::nothing().filled());
        lemma_gather_filled(args, 1, Gathered::nothing());
        if let Ok(seen) = gather(args, 1, Gathered::nothing()) {
            assert(seen.get(Field::Rootfs) == seen.rootfs);
            assert(seen.get(Field::Command) == seen.command);
            assert(seen.get(Field::Hostname) == seen.hostname);
        }
    }
}

/// The exit status of the launcher when its arguments are no invocation.
pub const USAGE_FAILURE: i32 = 2;

impl UsageError {
    /// The diagnostic for the user: what is wrong and, where a flag is
    /// concerned, which.
    pub open spec fn spec_message(self) -> Seq<char> {
        match self {
            UsageError::MissingSubcommand => "missing subcommand"@,
            UsageError::UnknownSubcommand => "unknown subcommand"@,
            UsageError::UnexpectedArgument { .. } => "unexpected argument"@,
            UsageError::DuplicateFlag { field } => "flag given more than once: "@ + flag(field),
            UsageError::MissingValue { field } => "missing value for "@ + flag(field),
            UsageError::EmptyValue { field } => "empty value for "@ + flag(field),
            UsageError::MissingFlag { field } => "missing flag "@ + flag(field),
        }
    }

    /// The diagnostic for the user.
    pub fn message(&self) -> (text: String)
        ensures
            text@ == self.spec_message(),
    {
        match *self {
            UsageError::MissingSubcommand => "missing subcommand".to_owned(),
            UsageError::UnknownSubcommand => "unknown subcommand".to_owned(),
            UsageError::UnexpectedArgument { .. } => "unexpected argument".to_owned(),
            UsageError::DuplicateFlag { field } => "flag given more than once: ".to_owned().concat(
                flag_of(field),
            ),
            UsageError::MissingValue { field } => "missing value for ".to_owned().concat(
                flag_of(field),
            ),
            UsageError::EmptyValue { field } => "empty value for ".to_owned().concat(
                flag_of(field),
            ),
            UsageError::MissingFlag { field } => "missing flag ".to_owned().concat(flag_of(field)),
        }
    }
}

/// The flag that announces the value of `field`.
pub fn flag_of(field: Field) -> (text: &'static str)
    ensures
        text@ == flag(field),
{
    match field {
        Field::Rootfs => "--rootfs",
        Field::Command => "--command",
        Field::Hostname => "--hostname",
    }
}

/// The subcommand that selects `role`.
pub fn subcommand_of(role: Role) -> (text: &'static str)
    ensures
        text@ == subcommand(role),
{
    match role {
        Role::Host => "run",
        Role::Relay => "child",
        Role::Init => "init",
    }
}

/// Whether `text` is the text of `word`.
fn reads(text: &String, word: &str) -> (same: bool)
    ensures
        same == (text@ == word@),
{
    let owned = word.to_owned();
    *text == owned
}

/// The role that `text` selects as a subcommand, if it selects one.
pub fn role_of(text: &String) -> (role: Option<Role>)
    ensures
        role == role_named(text@),
{
    if reads(text, subcommand_of(Role::Host)) {
        Some(Role::Host)
    } else if reads(text, subcommand_of(Role::Relay)) {
        Some(Role::Relay)
    } else if reads(text, subcommand_of(Role::Init)) {
        Some(Role::Init)
    } else {
        None
    }
}

/// The field that `text` announces as a flag, if it is a flag.
pub fn field_of(text: &String) -> (field: Option<Field>)
    ensures
        field == field_flagged(text@),
{
    if reads(text, flag_of(Field::Rootfs)) {
        Some(Field::Rootfs)
    } else if reads(text, flag_of(Field::Command)) {
        Some(Field::Command)
    } else if reads(text, flag_of(Field::Hostname)) {
        Some(Field::Hostname)
    } else {
        None
    }
}

/// The text of an optional string.
pub open spec fn text_of(value: Option<String>) -> Option<Seq<char>> {
    match value {
        Some(text) => Some(text@),
        None => None,
    }
}

/// Reads a list of process arguments, without the program's own name, as an
/// invocation.
pub fn parse(args: &Vec<String>) -> (result: Result<Invocation, UsageError>)
    ensures
        match result {
            Ok(invocation) => parse_spec(texts(args@)) == Ok::<InvocationView, UsageError>(
                invocation@,
            ) && invocation@.config.well_formed(),
            Err(error) => parse_spec(texts(args@)) == Err::<InvocationView, UsageError>(error),
        },
        result matches Err(UsageError::UnexpectedArgument { position }) ==> 1 <= position
            < args.len() && field_flagged(args@[position as int]@) is None,
{
    let ghost words = texts(args@);
    proof {
        lemma_parsed_is_well_formed(words);
    }
    if args.len() == 0 {
        return Err(UsageError::MissingSubcommand);
    }
    let role = match role_of(&args[0]) {
        Some(role) => role,
        None => {
            return Err(UsageError::UnknownSubcommand);
        },
    };
    let mut rootfs: Option<String> = None;
    let mut command: Option<String> = None;
    let mut hostname: Option<String> = None;
    let mut at: usize = 1;
    while at < args.len()
        invariant
            words == texts(args@),
            1 <= at <= args.len(),
            role_named(words[0]) == Some(role),
            parse_spec(words) matches Ok(invocation) ==> invocation.config.well_formed(),
            gather(words, 1, Gathered::nothing()) == gather(
                words,
                at as int,
                Gathered {
                    rootfs: text_of(rootfs),
                    command: text_of(command),
                    hostname: text_of(hostname),
                },
            ),
        decreases args.len() - at,
    {
        let field = match field_of(&args[at]) {
            Some(field) => field,
            None => {
                return Err(UsageError::UnexpectedArgument { position: at });
            },
        };
        let taken = match field {
            Field::Rootfs => rootfs.is_some(),
            Field::Command => command.is_some(),
            Field::Hostname => hostname.is_some(),
        };
        if taken {
            return Err(UsageError::DuplicateFlag { field });
        }
        if at + 1 >= args.len() {
            return Err(UsageError::MissingValue { field });
        }
        let value = &args[at + 1];
        if value.as_str().is_empty() {
            return Err(UsageError::EmptyValue { field });
        }
        match field {
            Field::Rootfs => {
                rootfs = Some(value.clone());
            },
            Field::Command => {
                command = Some(value.clone());
            },
            Field::Hostname => {
                hostname = Some(value.clone());
            },
        }
        at = at + 2;
    }
    let ghost seen = Gathered {
        rootfs: text_of(rootfs),
        command: text_of(command),
        hostname: text_of(hostname),
    };
    proof {
        lemma_gather_filled(words, 1, Gathered::nothing());
        assert(seen.get(Field::Rootfs) == seen.rootfs);
        assert(seen.get(Field::Command) == seen.command);
        assert(seen.get(Field::Hostname) == seen.hostname);
    }
    let rootfs = match rootfs {
        Some(rootfs) => rootfs,
        None => {
            return Err(UsageError::MissingFlag { field: Field::Rootfs });
        },
    };
    let command = match command {
        Some(command) => command,
        None => match role {
            Role::Host => "/bin/sh".to_owned(),
            _ => {
                return Err(UsageError::MissingFlag { field: Field::Command });
            },
        },
    };
    let hostname = match hostname {
        Some(hostname) => hostname,
        None => match role {
            Role::Host => "rustyrun-container".to_owned(),
            _ => {
                return Err(UsageError::MissingFlag { field: Field::Hostname });
            },
        },
    };
    Ok(Invocation { role, config: ContainerConfig::new(rootfs, command, hostname) })
}

/// Writes `role` and `config` as process arguments, to start the launcher
/// again as that role. Read back, the arguments give `role` and `config`.
pub fn marshal(role: Role, config: &ContainerConfig) -> (args: Vec<String>)
    ensures
        texts(args@) == marshal_spec(role, config@),
        parse_spec(texts(args@)) == Ok::<InvocationView, UsageError>(
            InvocationView { role, config: config@ },
        ),
{
    let mut args: Vec<String> = Vec::new();
    args.push(subcommand_of(role).to_owned());
    args.push(flag_of(Field::Rootfs).to_owned());
    args.push(config.rootfs().clone());
    args.push(flag_of(Field::Command).to_owned());
    args.push(config.command().clone());
    args.push(flag_of(Field::Hostname).to_owned());
    args.push(config.hostname().clone());
    proof {
        assert(texts(args@) =~= marshal_spec(role, config@));
        lemma_round_trip(role, config@);
    }
    args
}

} // verus!
