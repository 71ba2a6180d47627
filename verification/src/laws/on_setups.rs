//! Credentials and setups.

use vstd::prelude::*;
use vstd::utf8::*;
use crate::call::until_nul;
use crate::client::Smbc;
use crate::functions::{
    law_each_function_has_its_own_address, law_nothing_is_found_at_first, Function, Functions,
};
use crate::session::{
    credentials, default_user_data, law_buffers_are_overlaid, law_credentials_have_places,
};
use crate::setup::{
    law_set_credentials_are_handed_over, start, Action, Outcome, Progress, Setup, Stage,
};

verus! {

/// Setting the credentials puts each at its place, and leaves what stands behind them.
pub proof fn law_set_data(data: &mut Vec<String>, wg: String, un: String, pw: String)
    requires
        old(data)@.len() >= 3,
        call_ensures(Smbc::set_data, (data, wg, un, pw), ()),
    ensures
        final(data)@.len() == old(data)@.len(),
        final(data)@[0] == wg && final(data)@[1] == un && final(data)@[2] == pw,
        final(data)@.skip(3) == old(data)@.skip(3),
{
    assert(final(data)@.skip(3) == old(data)@.skip(3));
}

/// The credentials that are used are those at the first three places, and the default for each that
/// is not there; those that are there at first are the defaults.
pub proof fn law_credentials(
    data: &Vec<String>,
    r: (String, String, String),
    first: Vec<String>,
)
    requires
        call_ensures(credentials, (data,), r),
        call_ensures(default_user_data, (), first),
    ensures
        data@.len() > 0 ==> r.0@ == data@[0]@,
        data@.len() > 1 ==> r.1@ == data@[1]@,
        data@.len() > 2 ==> r.2@ == data@[2]@,
        data@.len() <= 0 ==> r.0@ == seq!['W', 'O', 'R', 'K', 'G', 'R', 'O', 'U', 'P'],
        data@.len() <= 1 ==> r.1@ == seq!['g', 'u', 'e', 's', 't'],
        data@.len() <= 2 ==> r.2@.len() == 0,
        first@.len() == 3,
        first@[0]@ == seq!['W', 'O', 'R', 'K', 'G', 'R', 'O', 'U', 'P'],
        first@[1]@ == seq!['g', 'u', 'e', 's', 't'],
        first@[2]@.len() == 0,
        call_requires(credentials, (data,)),
{
    law_credentials_have_places(data@);
    law_credentials_have_places(first@);
    reveal_strlit("WORKGROUP");
    reveal_strlit("guest");
    reveal_strlit("");
    assert("WORKGROUP"@.len() == 9);
}

/// Whoever sets credentials without a NUL character and then sets up a client hands them over
/// whole: what is due when it is their turn holds exactly their bytes, each read up to its first
/// NUL byte.
pub proof fn law_credentials_are_handed_over(
    data: &mut Vec<String>,
    wg: String,
    un: String,
    pw: String,
    now: &Vec<String>,
    setup: &Setup,
    action: Action,
)
    requires
        old(data)@.len() >= 3,
        call_ensures(Smbc::set_data, (data, wg, un, pw), ()),
        now@ == final(data)@,
        !wg@.contains('\0'),
        !un@.contains('\0'),
        !pw@.contains('\0'),
        setup.stage == Stage::Credentials,
        call_ensures(Setup::due, (setup, now), action),
    ensures
        action matches Action::SetCredentials { context, wg: a, un: b, pw: c } && context
            == setup.context && until_nul(a@) == encode_utf8(wg@) && until_nul(b@) == encode_utf8(
            un@,
        ) && until_nul(c@) == encode_utf8(pw@) && a@.len() == encode_utf8(wg@).len() + 1
            && b@.len() == encode_utf8(un@).len() + 1 && c@.len() == encode_utf8(pw@).len() + 1,
{
    law_set_credentials_are_handed_over(*setup, old(data)@, wg, un, pw, action);
}

/// The question for credentials is answered with their bytes: each takes the place of as many bytes
/// of its own buffer as it has, and the rest of the buffer stays.
pub proof fn law_question_for_credentials(
    data: &Vec<String>,
    wg: &mut Vec<u8>,
    un: &mut Vec<u8>,
    pw: &mut Vec<u8>,
)
    requires
        data@.len() >= 3,
        !data@[0]@.contains('\0'),
        !data@[1]@.contains('\0'),
        !data@[2]@.contains('\0'),
        encode_utf8(data@[0]@).len() <= old(wg)@.len(),
        encode_utf8(data@[1]@).len() <= old(un)@.len(),
        encode_utf8(data@[2]@).len() <= old(pw)@.len(),
        call_ensures(Smbc::auth_wrapper, (data, wg, un, pw), ()),
    ensures
        final(wg)@ == encode_utf8(data@[0]@) + old(wg)@.skip(encode_utf8(data@[0]@).len() as int),
        final(un)@ == encode_utf8(data@[1]@) + old(un)@.skip(encode_utf8(data@[1]@).len() as int),
        final(pw)@ == encode_utf8(data@[2]@) + old(pw)@.skip(encode_utf8(data@[2]@).len() as int),
{
    law_credentials_have_places(data@);
    law_buffers_are_overlaid(old(wg)@, data@[0]@, Seq::empty(), Seq::empty());
    law_buffers_are_overlaid(old(un)@, data@[1]@, Seq::empty(), Seq::empty());
    law_buffers_are_overlaid(old(pw)@, data@[2]@, Seq::empty(), Seq::empty());
}

/// A setup starts with the level that it is given and nothing else; it does what is due and goes
/// where that leads; and a client that is given up frees its context, if it has one.
pub proof fn law_setup_steps(
    level: u32,
    setup: &Setup,
    data: &Vec<String>,
    outcome: Outcome,
    client: &Smbc,
    begun: Setup,
    action: Action,
    progress: Progress,
    left: Option<Action>,
)
    requires
        setup.wf(),
        call_ensures(Smbc::new_with_auth, (level,), begun),
        call_ensures(Setup::due, (setup, data), action),
        call_ensures(Setup::advance, (setup, outcome), progress),
        call_ensures(Smbc::free, (client,), left),
    ensures
        level <= i32::MAX ==> begun.level == level,
        begun == start(begun.level),
        begun.context == 0 && begun.stage == Stage::Init && begun.functions
            == Functions::none_spec(),
        setup.is_due(data@, action),
        progress == setup.after(outcome),
        progress matches Progress::Going(next) ==> next.wf() && next.level == setup.level,
        left is Some <==> client.context != 0,
        left matches Some(a) ==>
            a == (Action::FreeContext { context: client.context, shutdown: 1 }),
        call_requires(Setup::due, (setup, data)),
        call_requires(Setup::advance, (setup, outcome)),
        call_requires(Smbc::new_with_auth, (level,)),
{
}

/// A table starts out with no address. With one put in for a function it has that address for that
/// function, and the addresses that it had for all others.
pub proof fn law_tables(
    table: &Functions,
    f: Function,
    g: Function,
    address: usize,
    empty: Functions,
    filled: Functions,
)
    requires
        call_ensures(Functions::none, (), empty),
        call_ensures(Functions::with, (table, f, address), filled),
    ensures
        empty.address_spec(g) == 0,
        filled.address_spec(f) == address,
        f != g ==> filled.address_spec(g) == table.address_spec(g),
{
    law_nothing_is_found_at_first(g);
    law_each_function_has_its_own_address(*table, f, address, g);
    law_each_function_has_its_own_address(*table, f, address, f);
}

} // verus!
