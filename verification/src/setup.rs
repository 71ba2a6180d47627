//! The steps from nothing to a working client.

use vstd::prelude::*;
use vstd::utf8::*;
use crate::call::{law_c_string_reads_back, law_texts_are_read_up_to_nul, until_nul, EINVAL};
use crate::client::Smbc;
use crate::error::Error;
use crate::functions::{
    function_at, law_each_function_has_its_own_address, law_each_function_is_looked_up_once,
    lookup_order, place, Function, Functions, FUNCTIONS,
};
use crate::session::{
    credentials, law_set_credentials_are_used, law_text_without_nul, password_of, terminated,
    username_of, workgroup_of,
};

verus! {

/// Something to be done with libsmbclient on the way to a client. Contexts are given by their
/// address.
#[derive(Debug, Clone, PartialEq, Eq)]
pub enum Action {
    /// Initialise the library, with a callback for credentials.
    Init { debug: i32 },
    /// Make a context.
    NewContext,
    SetOptionDebugToStderr { context: usize, on: i32 },
    /// Set the callback for credentials as the user data of the context.
    SetOptionUserData { context: usize },
    /// Set the callback for credentials that takes no context.
    SetFunctionAuthData { context: usize },
    /// Set the callback for credentials that takes a context.
    SetFunctionAuthDataWithContext { context: usize },
    SetOptionOneSharePerServer { context: usize, on: i32 },
    /// Set the credentials, which are terminated by a NUL byte.
    SetCredentials { context: usize, wg: Vec<u8>, un: Vec<u8>, pw: Vec<u8> },
    SetDebug { context: usize, level: i32 },
    /// Initialise the context.
    InitContext { context: usize },
    FreeContext { context: usize, shutdown: i32 },
    /// Make the context the current one; the null address takes the current one away.
    SetContext { context: usize },
    /// Look up a function of the context.
    GetFunction { context: usize, function: Function },
}

/// What an action came back with: the address of a context or a function where it gives one, and
/// the last error number of the operating system.
#[derive(Debug, Clone, Copy, PartialEq, Eq, Structural)]
pub struct Outcome {
    pub address: usize,
    pub errno: i32,
}

/// How far the way to a client has been gone: the action that comes next.
#[derive(Debug, Clone, Copy, PartialEq, Eq, Structural)]
pub enum Stage {
    Init,
    NewContext,
    DebugToStderr,
    UserData,
    AuthData,
    AuthDataWithContext,
    OneSharePerServer,
    Credentials,
    Debug,
    InitContext,
    /// The context could not be initialised, and is freed.
    Discard,
    SetContext,
    /// So many functions have been found.
    Lookup(usize),
    /// A function is missing, and the context is freed.
    Release,
}

/// A client that is being set up.
#[derive(Debug, Clone, Copy, PartialEq, Eq, Structural)]
pub struct Setup {
    /// The debug level.
    pub level: i32,
    /// The address of the context; null before there is one, and after it was freed.
    pub context: usize,
    /// The functions that have been found.
    pub functions: Functions,
    pub stage: Stage,
}

/// Where an action leads to.
#[derive(Debug, Clone, PartialEq, Eq)]
pub enum Progress {
    /// There is more to do.
    Going(Setup),
    /// The client is there.
    Ready(Smbc),
    /// There is no client.
    Failed(Error),
}

impl Setup {
    /// The number of functions that have been found is one that leaves some to be looked up.
    pub open spec fn wf(self) -> bool {
        self.stage matches Stage::Lookup(n) ==> n < FUNCTIONS
    }

    /// The setup at another stage.
    pub open spec fn at(self, stage: Stage) -> Setup {
        Setup { stage, ..self }
    }

    /// The action is the one that is due.
    pub open spec fn is_due(self, data: Seq<String>, action: Action) -> bool {
        let context = self.context;
        match self.stage {
            Stage::Init => action == (Action::Init { debug: self.level }),
            Stage::NewContext => action == Action::NewContext,
            Stage::DebugToStderr => action == (Action::SetOptionDebugToStderr { context, on: 1 }),
            Stage::UserData => action == (Action::SetOptionUserData { context }),
            Stage::AuthData => action == (Action::SetFunctionAuthData { context }),
            Stage::AuthDataWithContext => action == (Action::SetFunctionAuthDataWithContext {
                context,
            }),
            Stage::OneSharePerServer => action == (Action::SetOptionOneSharePerServer {
                context,
                on: 1,
            }),
            Stage::Credentials => {
                &&& action matches Action::SetCredentials { context: c, wg, un, pw }
                &&& c == context
                &&& wg@ == until_nul(encode_utf8(workgroup_of(data))).push(0)
                &&& un@ == until_nul(encode_utf8(username_of(data))).push(0)
                &&& pw@ == until_nul(encode_utf8(password_of(data))).push(0)
            },
            Stage::Debug => action == (Action::SetDebug { context, level: self.level }),
            Stage::InitContext => action == (Action::InitContext { context }),
            Stage::Discard => action == (Action::FreeContext { context, shutdown: 1 }),
            Stage::SetContext => action == (Action::SetContext { context }),
            Stage::Lookup(n) => action == (Action::GetFunction {
                context,
                function: lookup_order()[n as int],
            }),
            Stage::Release => action == (Action::FreeContext { context, shutdown: 1 }),
        }
    }

    /// Where the due action leads to.
    pub open spec fn after(self, outcome: Outcome) -> Progress {
        match self.stage {
            Stage::Init => Progress::Going(self.at(Stage::NewContext)),
            Stage::NewContext => if outcome.address == 0 {
                Progress::Failed(Error::Os(outcome.errno))
            } else {
                Progress::Going(
                    Setup { context: outcome.address, stage: Stage::DebugToStderr, ..self },
                )
            },
            Stage::DebugToStderr => Progress::Going(self.at(Stage::UserData)),
            Stage::UserData => Progress::Going(self.at(Stage::AuthData)),
            Stage::AuthData => Progress::Going(self.at(Stage::AuthDataWithContext)),
            Stage::AuthDataWithContext => Progress::Going(self.at(Stage::OneSharePerServer)),
            Stage::OneSharePerServer => Progress::Going(self.at(Stage::Credentials)),
            Stage::Credentials => Progress::Going(self.at(Stage::Debug)),
            Stage::Debug => Progress::Going(self.at(Stage::InitContext)),
            Stage::InitContext => if outcome.address == 0 {
                Progress::Going(self.at(Stage::Discard))
            } else {
                Progress::Going(
                    Setup { context: outcome.address, stage: Stage::SetContext, ..self },
                )
            },
            Stage::Discard => Progress::Going(
                Setup { context: 0, stage: Stage::SetContext, ..self },
            ),
            Stage::SetContext => Progress::Going(self.at(Stage::Lookup(0))),
            Stage::Lookup(n) => {
                let found = self.functions.with_spec(lookup_order()[n as int], outcome.address);
                if outcome.address == 0 && self.context == 0 {
                    Progress::Failed(Error::Os(EINVAL))
                } else if outcome.address == 0 {
                    Progress::Going(self.at(Stage::Release))
                } else if n + 1 < FUNCTIONS {
                    Progress::Going(
                        Setup {
                            functions: found,
                            stage: Stage::Lookup((n + 1) as usize),
                            ..self
                        },
                    )
                } else {
                    Progress::Ready(Smbc { context: self.context, functions: found })
                }
            },
            Stage::Release => Progress::Failed(Error::Os(EINVAL)),
        }
    }

    /// The setup with another context, at another stage.
    fn moved_to(&self, context: usize, stage: Stage) -> (r: Setup)
        ensures
            r == (Setup { context, stage, ..*self }),
    {
        Setup { level: self.level, context, functions: self.functions, stage }
    }

    /// The setup at another stage.
    fn moved(&self, stage: Stage) -> (r: Progress)
        ensures
            r == Progress::Going(self.at(stage)),
    {
        Progress::Going(self.moved_to(self.context, stage))
    }

    /// The action that is due. The credentials are read when they are due.
    pub fn due(&self, data: &Vec<String>) -> (action: Action)
        requires
            self.wf(),
        ensures
            self.is_due(data@, action),
    {
        let context: usize = self.context;
        match self.stage {
            Stage::Init => Action::Init { debug: self.level },
            Stage::NewContext => Action::NewContext,
            Stage::DebugToStderr => Action::SetOptionDebugToStderr { context, on: 1 },
            Stage::UserData => Action::SetOptionUserData { context },
            Stage::AuthData => Action::SetFunctionAuthData { context },
            Stage::AuthDataWithContext => Action::SetFunctionAuthDataWithContext { context },
            Stage::OneSharePerServer => Action::SetOptionOneSharePerServer { context, on: 1 },
            Stage::Credentials => {
                let (workgroup, username, password) = credentials(data);
                Action::SetCredentials {
                    context,
                    wg: terminated(&workgroup),
                    un: terminated(&username),
                    pw: terminated(&password),
                }
            },
            Stage::Debug => Action::SetDebug { context, level: self.level },
            Stage::InitContext => Action::InitContext { context },
            Stage::Discard => Action::FreeContext { context, shutdown: 1 },
            Stage::SetContext => Action::SetContext { context },
            Stage::Lookup(n) => Action::GetFunction { context, function: function_at(n) },
            Stage::Release => Action::FreeContext { context, shutdown: 1 },
        }
    }

    /// Goes on after the due action was done.
    pub fn advance(&self, outcome: Outcome) -> (r: Progress)
        requires
            self.wf(),
        ensures
            r == self.after(outcome),
            r matches Progress::Going(s) ==> s.wf(),
    {
        match self.stage {
            Stage::Init => self.moved(Stage::NewContext),
            Stage::NewContext => if outcome.address == 0 {
                Progress::Failed(Error::Os(outcome.errno))
            } else {
                Progress::Going(self.moved_to(outcome.address, Stage::DebugToStderr))
            },
            Stage::DebugToStderr => self.moved(Stage::UserData),
            Stage::UserData => self.moved(Stage::AuthData),
            Stage::AuthData => self.moved(Stage::AuthDataWithContext),
            Stage::AuthDataWithContext => self.moved(Stage::OneSharePerServer),
            Stage::OneSharePerServer => self.moved(Stage::Credentials),
            Stage::Credentials => self.moved(Stage::Debug),
            Stage::Debug => self.moved(Stage::InitContext),
            Stage::InitContext => if outcome.address == 0 {
                self.moved(Stage::Discard)
            } else {
                Progress::Going(self.moved_to(outcome.address, Stage::SetContext))
            },
            Stage::Discard => Progress::Going(self.moved_to(0, Stage::SetContext)),
            Stage::SetContext => self.moved(Stage::Lookup(0)),
            Stage::Lookup(n) => {
                let functions = self.functions.with(function_at(n), outcome.address);
                if outcome.address == 0 && self.context == 0 {
                    Progress::Failed(Error::Os(EINVAL))
                } else if outcome.address == 0 {
                    self.moved(Stage::Release)
                } else if n + 1 < FUNCTIONS {
                    Progress::Going(
                        Setup {
                            level: self.level,
                            context: self.context,
                            functions,
                            stage: Stage::Lookup(n + 1),
                        },
                    )
                } else {
                    Progress::Ready(Smbc { context: self.context, functions })
                }
            },
            Stage::Release => Progress::Failed(Error::Os(EINVAL)),
        }
    }
}

/// A setup before its first action.
pub open spec fn start(level: i32) -> Setup {
    Setup { level, context: 0, functions: Functions::none_spec(), stage: Stage::Init }
}

impl Smbc {
    /// Begins to set up a client with a debug level.
    pub fn new_with_auth(level: u32) -> (r: Setup)
        ensures
            r == start(level as i32),
            r.wf(),
    {
        Setup {
            level: level as i32,
            context: 0,
            functions: Functions::none(),
            stage: Stage::Init,
        }
    }

    /// What is left to do when the client is given up: to free its context, if it has one.
    pub fn free(&self) -> (r: Option<Action>)
        ensures
            r == (if self.context == 0 {
                None
            } else {
                Some(Action::FreeContext { context: self.context, shutdown: 1 })
            }),
    {
        if self.context == 0 {
            None
        } else {
            Some(Action::FreeContext { context: self.context, shutdown: 1 })
        }
    }
}

/// Where a setup gets to when the actions come back with the given outcomes.
pub open spec fn run(setup: Setup, outcomes: Seq<Outcome>) -> Progress
    decreases outcomes.len(),
{
    if outcomes.len() == 0 {
        Progress::Going(setup)
    } else {
        match setup.after(outcomes[0]) {
            Progress::Going(next) => run(next, outcomes.skip(1)),
            end => end,
        }
    }
}

/// The contexts that are freed on the way, in order.
pub open spec fn freed(setup: Setup, outcomes: Seq<Outcome>) -> Seq<usize>
    decreases outcomes.len(),
{
    if outcomes.len() == 0 {
        Seq::empty()
    } else {
        let here = if setup.stage == Stage::Discard || setup.stage == Stage::Release {
            seq![setup.context]
        } else {
            Seq::empty()
        };
        match setup.after(outcomes[0]) {
            Progress::Going(next) => here + freed(next, outcomes.skip(1)),
            _ => here,
        }
    }
}

/// The first so many outcomes give an address.
pub open spec fn all_found(outcomes: Seq<Outcome>, n: int) -> bool {
    forall|i: int| 0 <= i < n ==> (#[trigger] outcomes[i]).address != 0
}

/// A setup that is about to look up its functions ends like this: with a client that has the
/// context, and each function where its own lookup found it; or without one, if a lookup found
/// nothing.
pub open spec fn ends_lookup(context: usize, outcomes: Seq<Outcome>, end: Progress) -> bool {
    if all_found(outcomes, FUNCTIONS as int) {
        &&& end matches Progress::Ready(client)
        &&& client.context == context
        &&& forall|f: Function|
            #[trigger] client.functions.address_spec(f) == outcomes[place(f)].address
    } else {
        end == Progress::Failed(Error::Os(EINVAL))
    }
}

/// The contexts that are freed after the lookups: the one that was looked into, if it is one and
/// a lookup found nothing.
pub open spec fn freed_by_lookup(context: usize, outcomes: Seq<Outcome>) -> Seq<usize> {
    if context == 0 || all_found(outcomes, FUNCTIONS as int) {
        Seq::empty()
    } else {
        seq![context]
    }
}

proof fn lemma_lookup(setup: Setup, outcomes: Seq<Outcome>, n: usize)
    requires
        setup.stage == Stage::Lookup(n),
        n < FUNCTIONS,
        outcomes.len() >= FUNCTIONS + if setup.context == 0 {
            0int
        } else {
            1
        },
        all_found(outcomes, n as int),
        forall|f: Function|
            place(f) < n ==> #[trigger] setup.functions.address_spec(f)
                == outcomes[place(f)].address,
    ensures
        ends_lookup(setup.context, outcomes, run(setup, outcomes.skip(n as int))),
        freed(setup, outcomes.skip(n as int)) == freed_by_lookup(setup.context, outcomes),
    decreases FUNCTIONS - n,
{
    let rest = outcomes.skip(n as int);
    let f = lookup_order()[n as int];
    let found = setup.functions.with_spec(f, rest[0].address);
    assert(rest[0] == outcomes[n as int]);
    assert(rest.skip(1) == outcomes.skip(n + 1));
    law_each_function_is_looked_up_once(f, n as int);
    if rest[0].address == 0 {
        assert(!all_found(outcomes, FUNCTIONS as int));
        reveal_with_fuel(run, 2);
        reveal_with_fuel(freed, 2);
        if setup.context != 0 {
            assert(freed(setup, rest) == Seq::<usize>::empty() + seq![setup.context]);
        }
    } else {
        assert forall|g: Function| place(g) < n + 1 implies #[trigger] found.address_spec(g)
            == outcomes[place(g)].address by {
            law_each_function_has_its_own_address(setup.functions, f, rest[0].address, g);
            law_each_function_is_looked_up_once(g, n as int);
            assert(place(g) == n ==> g == f);
            if g != f {
                assert(setup.functions.address_spec(g) == outcomes[place(g)].address);
            }
        }
        if n + 1 < FUNCTIONS {
            let next = Setup {
                functions: found,
                stage: Stage::Lookup((n + 1) as usize),
                ..setup
            };
            lemma_lookup(next, outcomes, (n + 1) as usize);
            assert(freed(setup, rest) == freed(next, rest.skip(1)));
        } else {
            assert forall|g: Function| #[trigger] found.address_spec(g)
                == outcomes[place(g)].address by {
                law_each_function_is_looked_up_once(g, n as int);
            }
            assert(freed(setup, rest) == Seq::<usize>::empty());
        }
    }
}

/// A setup ends, after forty actions at most. Without a context it fails with the error of the
/// operating system. A context that cannot be initialised is freed, and the null context is asked
/// for the functions in its place. Where a function is missing the setup fails, and the context
/// that lacks it is freed. Otherwise there is a client: it has the context, which was not freed,
/// and each of its functions is what the lookup of that function came back with.
pub proof fn law_setup_ends(level: i32, outcomes: Seq<Outcome>)
    requires
        outcomes.len() >= 40,
    ensures
        ({
            let end = run(start(level), outcomes);
            let gone = freed(start(level), outcomes);
            let made = outcomes[1];
            let initialised = outcomes[9].address;
            if made.address == 0 {
                end == Progress::Failed(Error::Os(made.errno)) && gone == Seq::<usize>::empty()
            } else if initialised == 0 {
                ends_lookup(0, outcomes.skip(12), end) && gone == seq![made.address]
            } else {
                ends_lookup(initialised, outcomes.skip(11), end) && gone == freed_by_lookup(
                    initialised,
                    outcomes.skip(11),
                )
            }
        }),
{
    let begin = start(level);
    reveal_with_fuel(run, 3);
    reveal_with_fuel(freed, 3);
    assert(outcomes.skip(1)[0] == outcomes[1]);
    assert(outcomes.skip(1).skip(1) == outcomes.skip(2));
    if outcomes[1].address != 0 {
        let s = Setup { context: outcomes[1].address, stage: Stage::DebugToStderr, ..begin };
        assert(run(begin, outcomes) == run(s, outcomes.skip(2)));
        assert(freed(begin, outcomes) == freed(s, outcomes.skip(2)));
        lemma_configured(s, outcomes.skip(2));
        assert(outcomes.skip(2).skip(9) == outcomes.skip(11));
        assert(outcomes.skip(2).skip(10) == outcomes.skip(12));
    } else {
        assert(freed(begin, outcomes) == Seq::<usize>::empty());
    }
}

proof fn lemma_configured(setup: Setup, outcomes: Seq<Outcome>)
    requires
        setup.stage == Stage::DebugToStderr,
        outcomes.len() >= 38,
    ensures
        ({
            let end = run(setup, outcomes);
            let gone = freed(setup, outcomes);
            let initialised = outcomes[7].address;
            if initialised == 0 {
                ends_lookup(0, outcomes.skip(10), end) && gone == seq![setup.context]
            } else {
                ends_lookup(initialised, outcomes.skip(9), end) && gone == freed_by_lookup(
                    initialised,
                    outcomes.skip(9),
                )
            }
        }),
{
    lemma_step(setup, outcomes);
    lemma_step(setup.at(Stage::UserData), outcomes.skip(1));
    lemma_step(setup.at(Stage::AuthData), outcomes.skip(2));
    lemma_step(setup.at(Stage::AuthDataWithContext), outcomes.skip(3));
    lemma_step(setup.at(Stage::OneSharePerServer), outcomes.skip(4));
    lemma_step(setup.at(Stage::Credentials), outcomes.skip(5));
    lemma_step(setup.at(Stage::Debug), outcomes.skip(6));
    assert(forall|i: int|
        0 <= i < 10 ==> #[trigger] outcomes.skip(i).skip(1) == outcomes.skip(i + 1));
    let s = setup.at(Stage::InitContext);
    let rest = outcomes.skip(7);
    lemma_step(s, rest);
    assert(rest[0] == outcomes[7]);
    if outcomes[7].address == 0 {
        let none = Setup { context: 0, stage: Stage::SetContext, ..s };
        lemma_step(s.at(Stage::Discard), outcomes.skip(8));
        lemma_step(none, outcomes.skip(9));
        lemma_lookup(none.at(Stage::Lookup(0)), outcomes.skip(10), 0);
        assert(outcomes.skip(10).skip(0) == outcomes.skip(10));
        assert(freed(s.at(Stage::Discard), outcomes.skip(8)) == seq![setup.context]
            + freed(none, outcomes.skip(9)));
    } else {
        let t = Setup { context: outcomes[7].address, stage: Stage::SetContext, ..s };
        lemma_step(t, outcomes.skip(8));
        lemma_lookup(t.at(Stage::Lookup(0)), outcomes.skip(9), 0);
        assert(outcomes.skip(9).skip(0) == outcomes.skip(9));
    }
}

/// One step, without the parts of a run that come before it.
proof fn lemma_step(setup: Setup, outcomes: Seq<Outcome>)
    requires
        outcomes.len() > 0,
    ensures
        setup.after(outcomes[0]) matches Progress::Going(next) ==> {
            &&& run(setup, outcomes) == run(next, outcomes.skip(1))
            &&& setup.stage != Stage::Discard && setup.stage != Stage::Release ==> freed(
                setup,
                outcomes,
            ) == freed(next, outcomes.skip(1))
        },
{
    if let Progress::Going(next) = setup.after(outcomes[0]) {
        assert(Seq::<usize>::empty() + freed(next, outcomes.skip(1)) == freed(
            next,
            outcomes.skip(1),
        ));
    }
}

/// The credentials that were set reach the server whole: once workgroup, user name and password
/// are set, and none of them holds a NUL character, the action that is due when it is their turn
/// hands over exactly their bytes, terminated, in the context of the setup.
pub proof fn law_set_credentials_are_handed_over(
    setup: Setup,
    data: Seq<String>,
    wg: String,
    un: String,
    pw: String,
    action: Action,
)
    requires
        data.len() >= 3,
        !wg@.contains('\0'),
        !un@.contains('\0'),
        !pw@.contains('\0'),
        setup.stage == Stage::Credentials,
        setup.is_due(data.update(0, wg).update(1, un).update(2, pw), action),
    ensures
        action matches Action::SetCredentials { context, wg: a, un: b, pw: c } && context
            == setup.context && a@ == encode_utf8(wg@).push(0) && b@ == encode_utf8(un@).push(0)
            && c@ == encode_utf8(pw@).push(0) && until_nul(a@) == encode_utf8(wg@) && until_nul(b@)
            == encode_utf8(un@) && until_nul(c@) == encode_utf8(pw@),
{
    law_set_credentials_are_used(data, wg, un, pw);
    law_text_without_nul(wg@);
    law_text_without_nul(un@);
    law_text_without_nul(pw@);
    law_texts_are_read_up_to_nul(encode_utf8(wg@), Seq::empty());
    law_texts_are_read_up_to_nul(encode_utf8(un@), Seq::empty());
    law_texts_are_read_up_to_nul(encode_utf8(pw@), Seq::empty());
    law_c_string_reads_back(encode_utf8(wg@));
    law_c_string_reads_back(encode_utf8(un@));
    law_c_string_reads_back(encode_utf8(pw@));
}

/// The actions are those that a setup takes while the outcomes come back, one by one, until it
/// ends.
pub open spec fn takes(
    setup: Setup,
    data: Seq<String>,
    outcomes: Seq<Outcome>,
    actions: Seq<Action>,
) -> bool
    decreases outcomes.len(),
{
    if outcomes.len() == 0 {
        actions.len() == 0
    } else {
        &&& actions.len() > 0
        &&& setup.is_due(data, actions[0])
        &&& match setup.after(outcomes[0]) {
            Progress::Going(next) => takes(next, data, outcomes.skip(1), actions.skip(1)),
            _ => actions.len() == 1,
        }
    }
}

/// The action hands over the credentials, each up to its first NUL byte and terminated.
pub open spec fn hands_over(action: Action, made: usize, data: Seq<String>) -> bool {
    &&& action matches Action::SetCredentials { context, wg, un, pw }
    &&& context == made
    &&& wg@ == until_nul(encode_utf8(workgroup_of(data))).push(0)
    &&& un@ == until_nul(encode_utf8(username_of(data))).push(0)
    &&& pw@ == until_nul(encode_utf8(password_of(data))).push(0)
}

/// The actions look up the functions one after another, the first `found` of which are there, and
/// if one is missing the context is freed at last, unless it is null.
pub open spec fn looks_up(context: usize, found: int, actions: Seq<Action>) -> bool {
    let lookups = if found < FUNCTIONS {
        found + 1
    } else {
        found
    };
    &&& forall|i: int|
        0 <= i < lookups ==> #[trigger] actions[i] == (Action::GetFunction {
            context,
            function: lookup_order()[i],
        })
    &&& if found < FUNCTIONS && context != 0 {
        actions.len() == lookups + 1 && actions[lookups] == (Action::FreeContext {
            context,
            shutdown: 1,
        })
    } else {
        actions.len() == lookups
    }
}

proof fn lemma_lookup_acts(
    setup: Setup,
    data: Seq<String>,
    outcomes: Seq<Outcome>,
    actions: Seq<Action>,
    n: usize,
    found: int,
)
    requires
        setup.stage == Stage::Lookup(n),
        n <= found <= FUNCTIONS,
        n < FUNCTIONS,
        outcomes.len() >= FUNCTIONS + if setup.context == 0 {
            0int
        } else {
            1
        },
        all_found(outcomes, found),
        found < FUNCTIONS ==> outcomes[found].address == 0,
        actions.len() >= n,
        takes(setup, data, outcomes.skip(n as int), actions.skip(n as int)),
        forall|i: int|
            0 <= i < n ==> #[trigger] actions[i] == (Action::GetFunction {
                context: setup.context,
                function: lookup_order()[i],
            }),
    ensures
        looks_up(setup.context, found, actions),
    decreases FUNCTIONS - n,
{
    let rest = outcomes.skip(n as int);
    let acts = actions.skip(n as int);
    assert(rest[0] == outcomes[n as int]);
    assert(acts[0] == actions[n as int]);
    assert(rest.skip(1) == outcomes.skip(n + 1));
    assert(acts.skip(1) == actions.skip(n + 1));
    if n == found {
        reveal_with_fuel(takes, 3);
        if setup.context != 0 {
            assert(acts.skip(1)[0] == actions[n + 1]);
            assert(acts.skip(1).len() == 1);
        }
    } else if n + 1 < FUNCTIONS {
        let next = Setup {
            functions: setup.functions.with_spec(lookup_order()[n as int], rest[0].address),
            stage: Stage::Lookup((n + 1) as usize),
            ..setup
        };
        assert(setup.after(rest[0]) == Progress::Going(next));
        lemma_lookup_acts(next, data, outcomes, actions, (n + 1) as usize, found);
    }
}

/// What a setup does, in order. It initialises the library with the debug level and makes a
/// context. Without one it stops. With one it turns on the debug output, sets the callbacks, turns
/// on one share per server, hands over the credentials, sets the debug level and initialises the
/// context. Where that fails it frees the context and goes on with the null context. It makes the
/// context the current one, and looks up the functions until one is missing.
pub proof fn law_setup_acts(
    level: i32,
    data: Seq<String>,
    outcomes: Seq<Outcome>,
    actions: Seq<Action>,
    found: int,
)
    requires
        outcomes.len() >= 40,
        takes(start(level), data, outcomes, actions),
        0 <= found <= FUNCTIONS,
        ({
            let looked = outcomes.skip(if outcomes[9].address == 0 { 12 } else { 11 });
            all_found(looked, found) && (found < FUNCTIONS ==> looked[found].address == 0)
        }),
    ensures
        actions.len() >= 2,
        actions[0] == (Action::Init { debug: level }),
        actions[1] == Action::NewContext,
        outcomes[1].address == 0 ==> actions.len() == 2,
        outcomes[1].address != 0 ==> {
            let made = outcomes[1].address;
            let used = outcomes[9].address;
            &&& actions.len() > 11
            &&& actions[2] == (Action::SetOptionDebugToStderr { context: made, on: 1 })
            &&& actions[3] == (Action::SetOptionUserData { context: made })
            &&& actions[4] == (Action::SetFunctionAuthData { context: made })
            &&& actions[5] == (Action::SetFunctionAuthDataWithContext { context: made })
            &&& actions[6] == (Action::SetOptionOneSharePerServer { context: made, on: 1 })
            &&& hands_over(actions[7], made, data)
            &&& actions[8] == (Action::SetDebug { context: made, level })
            &&& actions[9] == (Action::InitContext { context: made })
            &&& if used == 0 {
                &&& actions[10] == (Action::FreeContext { context: made, shutdown: 1 })
                &&& actions[11] == (Action::SetContext { context: 0 })
                &&& looks_up(0, found, actions.skip(12))
            } else {
                &&& actions[10] == (Action::SetContext { context: used })
                &&& looks_up(used, found, actions.skip(11))
            }
        },
{
    let begin = start(level);
    lemma_takes(begin, data, outcomes, actions, 0);
    lemma_takes(begin.at(Stage::NewContext), data, outcomes, actions, 1);
    if outcomes[1].address != 0 {
        let s = Setup { context: outcomes[1].address, ..begin };
        lemma_takes(s.at(Stage::DebugToStderr), data, outcomes, actions, 2);
        lemma_takes(s.at(Stage::UserData), data, outcomes, actions, 3);
        lemma_takes(s.at(Stage::AuthData), data, outcomes, actions, 4);
        lemma_takes(s.at(Stage::AuthDataWithContext), data, outcomes, actions, 5);
        lemma_takes(s.at(Stage::OneSharePerServer), data, outcomes, actions, 6);
        lemma_takes(s.at(Stage::Credentials), data, outcomes, actions, 7);
        lemma_takes(s.at(Stage::Debug), data, outcomes, actions, 8);
        lemma_takes(s.at(Stage::InitContext), data, outcomes, actions, 9);
        if outcomes[9].address == 0 {
            let t = Setup { context: 0, ..s };
            lemma_takes(s.at(Stage::Discard), data, outcomes, actions, 10);
            lemma_takes(t.at(Stage::SetContext), data, outcomes, actions, 11);
            assert(outcomes.skip(12).skip(0) == outcomes.skip(12));
            assert(actions.skip(12).skip(0) == actions.skip(12));
            lemma_lookup_acts(
                t.at(Stage::Lookup(0)),
                data,
                outcomes.skip(12),
                actions.skip(12),
                0,
                found,
            );
        } else {
            let t = Setup { context: outcomes[9].address, ..s };
            lemma_takes(t.at(Stage::SetContext), data, outcomes, actions, 10);
            assert(outcomes.skip(11).skip(0) == outcomes.skip(11));
            assert(actions.skip(11).skip(0) == actions.skip(11));
            lemma_lookup_acts(
                t.at(Stage::Lookup(0)),
                data,
                outcomes.skip(11),
                actions.skip(11),
                0,
                found,
            );
        }
    }
}

proof fn lemma_takes(
    setup: Setup,
    data: Seq<String>,
    outcomes: Seq<Outcome>,
    actions: Seq<Action>,
    i: int,
)
    requires
        0 <= i < outcomes.len(),
        i <= actions.len(),
        i == 0 ==> takes(setup, data, outcomes, actions),
        takes(setup, data, outcomes.skip(i), actions.skip(i)) || i == 0,
    ensures
        actions.len() > i,
        setup.is_due(data, actions[i]),
        match setup.after(outcomes[i]) {
            Progress::Going(next) => takes(next, data, outcomes.skip(i + 1), actions.skip(i + 1)),
            _ => actions.len() == i + 1,
        },
{
    if i == 0 {
        assert(outcomes.skip(0) == outcomes);
        assert(actions.skip(0) == actions);
    }
    assert(outcomes.skip(i)[0] == outcomes[i]);
    assert(actions.skip(i)[0] == actions[i]);
    assert(outcomes.skip(i).skip(1) == outcomes.skip(i + 1));
    assert(actions.skip(i).skip(1) == actions.skip(i + 1));
}

} // verus!
