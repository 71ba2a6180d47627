use smbc::call::{
    to_result_with_le, Call, Reply, Request, EINVAL, SEEK_CUR, SEEK_END, SEEK_SET,
};
use smbc::file::{count_reply, position_reply, seek_reply, SeekFrom};
use smbc::functions::Function;
use smbc::setup::Action;
use smbc::{Error, SmbcDirectory, SmbcFile};

const FILE: SmbcFile = SmbcFile {
    smbc: 3,
    fd: 4,
    fstat_fn: 50,
    ftruncate_fn: 51,
    lseek_fn: 52,
    read_fn: 53,
    write_fn: 54,
};
const DIR: SmbcDirectory = SmbcDirectory {
    smbc: 5,
    handle: 6,
    lseekdir_fn: 60,
    readdir_fn: 61,
    telldir_fn: 62,
};

fn on_file(call: Call) -> Request {
    let function = match call {
        Call::Fstat { .. } => 50,
        Call::Ftruncate { .. } => 51,
        Call::Lseek { .. } => 52,
        Call::Read { .. } => 53,
        Call::Write { .. } => 54,
        _ => unreachable!(),
    };
    Request { context: 3, function, call }
}

fn reply(value: i64, errno: i32) -> Reply {
    Reply { value, errno }
}

fn on_dir(call: Call) -> Request {
    let function = match call {
        Call::Lseekdir { .. } => 60,
        Call::Readdir { .. } => 61,
        Call::Telldir { .. } => 62,
        _ => unreachable!(),
    };
    Request { context: 5, function, call }
}

#[test]
fn reading_and_writing() {
    assert_eq!(FILE.fread(10), on_file(Call::Read { file: 4, count: 10 }));
    assert_eq!(FILE.read(&[0; 7]), on_file(Call::Read { file: 4, count: 7 }));
    assert_eq!(FILE.fwrite(&[1, 2, 3]), on_file(Call::Write { file: 4, data: vec![1, 2, 3] }));
    assert_eq!(FILE.write(&[9, 0]), on_file(Call::Write { file: 4, data: vec![9, 0] }));
    assert_eq!(FILE.write(&[]), on_file(Call::Write { file: 4, data: vec![] }));
}

#[test]
fn read_bytes_are_the_start_of_the_buffer() {
    let buffer = vec![1, 2, 3, 4];
    let read = |value| FILE.fread_reply(buffer.clone(), Reply { value, errno: 9 });
    assert_eq!(read(0), Ok(vec![]));
    assert_eq!(read(3), Ok(vec![1, 2, 3]));
    assert_eq!(read(4), Ok(vec![1, 2, 3, 4]));
    assert_eq!(read(-1), Err(Error::Os(9)));
}

#[test]
fn counts() {
    assert_eq!(count_reply(Reply { value: 12, errno: 9 }), Ok(12));
    assert_eq!(count_reply(Reply { value: -1, errno: 9 }), Err(Error::Os(9)));
}

#[test]
fn stat_and_truncate() {
    assert_eq!(FILE.fstat(), on_file(Call::Fstat { file: 4 }));
    assert_eq!(FILE.ftruncate(-1), on_file(Call::Ftruncate { file: 4, size: -1 }));
}

#[test]
fn seeking_a_file() {
    let asks = |offset, whence| on_file(Call::Lseek { file: 4, offset, whence });
    assert_eq!(FILE.lseek(-5, 2), asks(-5, 2));
    assert_eq!(FILE.seek(SeekFrom::Start(9)), asks(9, 0));
    assert_eq!(FILE.seek(SeekFrom::Current(-9)), asks(-9, 1));
    assert_eq!(FILE.seek(SeekFrom::End(-1)), asks(-1, 2));
    assert_eq!(FILE.seek(SeekFrom::Start(u64::MAX)), asks(-1, 0));
}

#[test]
fn positions() {
    assert_eq!(position_reply(reply(5, libc::EBADF)), Ok(5));
    assert_eq!(position_reply(reply(-1, libc::EBADF)), Err(Error::Os(libc::EBADF)));
    assert_eq!(position_reply(reply(-1, libc::ENOTDIR)), Err(Error::Os(libc::ENOTDIR)));
    assert_eq!(position_reply(reply(-1, libc::EINVAL)), Err(Error::Os(libc::EINVAL)));
    assert_eq!(position_reply(reply(-2, 0)), Ok(-2));
    assert_eq!(seek_reply(reply(5, libc::EBADF)), Ok(5));
    assert_eq!(seek_reply(reply(-1, libc::EBADF)), Err(Error::Os(libc::EBADF)));
}

#[test]
fn positions_can_be_sought_again() {
    for value in [0, 1, i64::MAX, i64::MIN, -2] {
        let back = seek_reply(reply(value, 0)).unwrap();
        assert_eq!(
            FILE.seek(SeekFrom::Start(back)),
            on_file(Call::Lseek { file: 4, offset: value, whence: 0 })
        );
    }
}

#[test]
fn walking_a_directory() {
    assert_eq!(DIR.next(), on_dir(Call::Readdir { dir: 6 }));
    assert_eq!(DIR.readdir(), on_dir(Call::Readdir { dir: 6 }));
    assert_eq!(DIR.telldir(), on_dir(Call::Telldir { dir: 6 }));
    assert_eq!(DIR.lseekdir(8), on_dir(Call::Lseekdir { dir: 6, offset: 8 }));
    assert_eq!(DIR.lseekdir_reply(reply(0, 0)), Ok(()));
    assert_eq!(
        DIR.lseekdir_reply(reply(-1, libc::ENOTDIR)),
        Err(Error::Os(libc::ENOTDIR))
    );
}

#[test]
fn seeking_a_directory_ignores_where_from() {
    for pos in [SeekFrom::Start(8), SeekFrom::End(8), SeekFrom::Current(8)] {
        assert_eq!(DIR.seek(pos), on_dir(Call::Lseekdir { dir: 6, offset: 8 }));
    }
}

#[test]
fn only_what_is_open_is_closed() {
    let look_up = |context, function| Some(Action::GetFunction { context, function });
    assert_eq!(FILE.close(), look_up(3, Function::Close));
    assert_eq!(
        FILE.close_with(9),
        Some(Request { context: 3, function: 9, call: Call::Close { file: 4 } })
    );
    assert_eq!(FILE.close_with(0), None);
    let none = SmbcFile { fd: 0, ..FILE };
    assert_eq!(none.close(), None);
    assert_eq!(none.close_with(9), None);
    assert_eq!(DIR.close(), look_up(5, Function::Closedir));
    assert_eq!(
        DIR.close_with(9),
        Some(Request { context: 5, function: 9, call: Call::Closedir { dir: 6 } })
    );
    assert_eq!(DIR.close_with(0), None);
    let none = SmbcDirectory { handle: 0, ..DIR };
    assert_eq!(none.close(), None);
    assert_eq!(none.close_with(9), None);
}

#[test]
fn reading_in_either_way_agrees() {
    let buf = [1, 2, 3, 4];
    assert_eq!(FILE.read(&buf), FILE.fread(4));
    for value in [0, 1, 4, -1, -3] {
        let counted = count_reply(reply(value, 5));
        let bytes = FILE.fread_reply(buf.to_vec(), reply(value, 5));
        assert_eq!(bytes, counted.map(|n| buf[..n].to_vec()));
    }
}

#[test]
fn writing_in_either_way_agrees() {
    assert_eq!(FILE.write(&[1, 2]), FILE.fwrite(&[1, 2]));
    for value in [0, 2, -1] {
        let written = to_result_with_le(reply(value, 5));
        assert_eq!(count_reply(reply(value, 5)), written.map(|n| n as usize));
    }
}

#[test]
fn numbers_are_those_of_the_platform() {
    assert_eq!(EINVAL, libc::EINVAL);
    assert_eq!(SEEK_SET, libc::SEEK_SET);
    assert_eq!(SEEK_CUR, libc::SEEK_CUR);
    assert_eq!(SEEK_END, libc::SEEK_END);
}
