use smbc::functions::{Function, Functions};
use smbc::session::{credentials, default_user_data};
use smbc::setup::{Action, Outcome, Progress, Setup};
use smbc::{Error, Smbc};

fn texts(list: &[&str]) -> Vec<String> {
    list.iter().map(|s| s.to_string()).collect()
}

fn triple(a: &str, b: &str, c: &str) -> (String, String, String) {
    (a.to_string(), b.to_string(), c.to_string())
}

#[test]
fn missing_credentials_have_defaults() {
    assert_eq!(default_user_data(), texts(&["WORKGROUP", "guest", ""]));
    assert_eq!(credentials(&default_user_data()), triple("WORKGROUP", "guest", ""));
    assert_eq!(credentials(&vec![]), triple("WORKGROUP", "guest", ""));
    assert_eq!(credentials(&texts(&["W"])), triple("W", "guest", ""));
    assert_eq!(credentials(&texts(&["W", "u"])), triple("W", "u", ""));
}

#[test]
fn credentials_that_were_set_are_used() {
    let mut data = default_user_data();
    data.push("more".to_string());
    Smbc::set_data(&mut data, "W".to_string(), "u".to_string(), "p".to_string());
    assert_eq!(data, texts(&["W", "u", "p", "more"]));
    assert_eq!(credentials(&data), triple("W", "u", "p"));
}

#[test]
fn credentials_are_laid_over_the_buffers() {
    let data = texts(&["WG", "a\0b", ""]);
    let mut wg = vec![0; 5];
    let mut un = vec![9; 4];
    let mut pw = vec![8; 2];
    Smbc::auth_wrapper(&data, &mut wg, &mut un, &mut pw);
    assert_eq!(wg, b"WG\0\0\0");
    assert_eq!(un, [97, 0, 0, 9]);
    assert_eq!(pw, [8, 8]);
}

#[test]
fn credentials_may_fill_a_buffer() {
    let mut wg = vec![0; 9];
    let mut un = b"administrator".to_vec();
    let mut pw = vec![];
    Smbc::auth_wrapper(&default_user_data(), &mut wg, &mut un, &mut pw);
    assert_eq!(wg, b"WORKGROUP");
    assert_eq!(un, b"guestistrator");
    assert_eq!(pw, b"");
}

/// Runs a setup; `outcome` says what each action comes back with.
fn play(level: u32, outcome: &dyn Fn(&Action) -> usize) -> (Vec<Action>, Progress) {
    let data = texts(&["W", "u\0x", "p"]);
    let mut setup: Setup = Smbc::new_with_auth(level);
    let mut done = vec![];
    loop {
        let action = setup.due(&data);
        let address = outcome(&action);
        done.push(action);
        match setup.advance(Outcome { address, errno: 12 }) {
            Progress::Going(next) => setup = next,
            end => return (done, end),
        }
    }
}

fn configuring() -> Vec<Action> {
    vec![
        Action::Init { debug: 3 },
        Action::NewContext,
        Action::SetOptionDebugToStderr { context: 100, on: 1 },
        Action::SetOptionUserData { context: 100 },
        Action::SetFunctionAuthData { context: 100 },
        Action::SetFunctionAuthDataWithContext { context: 100 },
        Action::SetOptionOneSharePerServer { context: 100, on: 1 },
        Action::SetCredentials {
            context: 100,
            wg: b"W\0".to_vec(),
            un: b"u\0".to_vec(),
            pw: b"p\0".to_vec(),
        },
        Action::SetDebug { context: 100, level: 3 },
        Action::InitContext { context: 100 },
    ]
}

const FUNCTIONS: [Function; 28] = [
    Function::Chmod,
    Function::Close,
    Function::Closedir,
    Function::Creat,
    Function::Fstat,
    Function::FstatVFS,
    Function::Fstatdir,
    Function::Ftruncate,
    Function::Getdents,
    Function::Getxattr,
    Function::Listxattr,
    Function::Lseek,
    Function::Lseekdir,
    Function::Mkdir,
    Function::Open,
    Function::Opendir,
    Function::Read,
    Function::Readdir,
    Function::Removexattr,
    Function::Rename,
    Function::Rmdir,
    Function::Setxattr,
    Function::Stat,
    Function::StatVFS,
    Function::Telldir,
    Function::Unlink,
    Function::Utimes,
    Function::Write,
];

/// Each function has an address of its own.
fn address_in(function: &Function) -> usize {
    1000 + FUNCTIONS.iter().position(|f| f == function).unwrap()
}

/// The functions at the addresses where they were found.
fn found() -> Functions {
    Functions {
        chmod_fn: 1000,
        close_fn: 1001,
        closedir_fn: 1002,
        creat_fn: 1003,
        fstat_fn: 1004,
        fstatvfs_fn: 1005,
        fstatdir_fn: 1006,
        ftruncate_fn: 1007,
        getdents_fn: 1008,
        getxattr_fn: 1009,
        listxattr_fn: 1010,
        lseek_fn: 1011,
        lseekdir_fn: 1012,
        mkdir_fn: 1013,
        open_fn: 1014,
        opendir_fn: 1015,
        read_fn: 1016,
        readdir_fn: 1017,
        removexattr_fn: 1018,
        rename_fn: 1019,
        rmdir_fn: 1020,
        setxattr_fn: 1021,
        stat_fn: 1022,
        statvfs_fn: 1023,
        telldir_fn: 1024,
        unlink_fn: 1025,
        utimes_fn: 1026,
        write_fn: 1027,
    }
}

fn address_of(action: &Action) -> usize {
    match action {
        Action::NewContext => 100,
        Action::InitContext { .. } => 100,
        Action::GetFunction { function, .. } => address_in(function),
        _ => 0,
    }
}

#[test]
fn a_setup_that_succeeds() {
    let (done, end) = play(3, &address_of);
    let mut expected = configuring();
    expected.push(Action::SetContext { context: 100 });
    for function in FUNCTIONS {
        expected.push(Action::GetFunction { context: 100, function });
    }
    assert_eq!(done, expected);
    assert_eq!(end, Progress::Ready(Smbc { context: 100, functions: found() }));
}

#[test]
fn a_setup_without_a_context() {
    let (done, end) = play(3, &|_| 0);
    assert_eq!(done, configuring()[..2].to_vec());
    assert_eq!(end, Progress::Failed(Error::Os(12)));
}

#[test]
fn a_context_that_cannot_be_initialised_is_freed() {
    let (done, end) = play(3, &|action| match action {
        Action::InitContext { .. } => 0,
        Action::GetFunction { .. } => 0,
        other => address_of(other),
    });
    let mut expected = configuring();
    expected.push(Action::FreeContext { context: 100, shutdown: 1 });
    expected.push(Action::SetContext { context: 0 });
    expected.push(Action::GetFunction { context: 0, function: Function::Chmod });
    assert_eq!(done, expected);
    assert_eq!(end, Progress::Failed(Error::Os(22)));
}

#[test]
fn the_null_context_is_asked_in_place_of_one_that_was_freed() {
    let (done, end) = play(3, &|action| match action {
        Action::InitContext { .. } => 0,
        other => address_of(other),
    });
    assert_eq!(done.len(), 40);
    for (i, function) in FUNCTIONS.iter().enumerate() {
        assert_eq!(done[12 + i], Action::GetFunction { context: 0, function: *function });
    }
    assert_eq!(end, Progress::Ready(Smbc { context: 0, functions: found() }));
}

#[test]
fn a_context_without_a_function_is_freed() {
    for (i, missing) in FUNCTIONS.iter().enumerate() {
        let (done, end) = play(3, &|action| match action {
            Action::GetFunction { function, .. } if function == missing => 0,
            other => address_of(other),
        });
        assert_eq!(done.len(), 11 + i + 2);
        assert_eq!(done[11 + i], Action::GetFunction { context: 100, function: *missing });
        assert_eq!(done[12 + i], Action::FreeContext { context: 100, shutdown: 1 });
        assert_eq!(end, Progress::Failed(Error::Os(22)));
    }
}

#[test]
fn levels_are_taken_as_signed() {
    let (done, _) = play(u32::MAX, &|_| 0);
    assert_eq!(done[0], Action::Init { debug: -1 });
}

#[test]
fn only_a_context_is_freed() {
    assert_eq!(
        Smbc { context: 100, functions: found() }.free(),
        Some(Action::FreeContext { context: 100, shutdown: 1 })
    );
    assert_eq!(Smbc { context: 0, functions: Functions::none() }.free(), None);
}
