//! The functions that a context provides.

use vstd::prelude::*;

verus! {

/// A function that a context provides.
#[derive(Debug, Clone, Copy, PartialEq, Eq, Structural)]
pub enum Function {
    Chmod,
    Close,
    Closedir,
    Creat,
    Fstat,
    FstatVFS,
    Fstatdir,
    Ftruncate,
    Getdents,
    Getxattr,
    Listxattr,
    Lseek,
    Lseekdir,
    Mkdir,
    Open,
    Opendir,
    Read,
    Readdir,
    Removexattr,
    Rename,
    Rmdir,
    Setxattr,
    Stat,
    StatVFS,
    Telldir,
    Unlink,
    Utimes,
    Write,
}

/// How many functions a client needs.
pub const FUNCTIONS: usize = 28;

/// The functions that a client needs, in the order in which they are looked up.
pub open spec fn lookup_order() -> Seq<Function> {
    seq![
        Function::Chmod,
        Function::Close,
        Function::Closedir,
        Function::Creat,
        Function::Fstat,
        Function::FstatVFS,
        Function::Fstatdir,
        Function::Ftruncate,
        Function::Getdents,
        Function::Getxattr,
        Function::Listxattr,
        Function::Lseek,
        Function::Lseekdir,
        Function::Mkdir,
        Function::Open,
        Function::Opendir,
        Function::Read,
        Function::Readdir,
        Function::Removexattr,
        Function::Rename,
        Function::Rmdir,
        Function::Setxattr,
        Function::Stat,
        Function::StatVFS,
        Function::Telldir,
        Function::Unlink,
        Function::Utimes,
        Function::Write,
    ]
}

/// The place of a function in the order.
pub open spec fn place(f: Function) -> int {
    match f {
        Function::Chmod => 0,
        Function::Close => 1,
        Function::Closedir => 2,
        Function::Creat => 3,
        Function::Fstat => 4,
        Function::FstatVFS => 5,
        Function::Fstatdir => 6,
        Function::Ftruncate => 7,
        Function::Getdents => 8,
        Function::Getxattr => 9,
        Function::Listxattr => 10,
        Function::Lseek => 11,
        Function::Lseekdir => 12,
        Function::Mkdir => 13,
        Function::Open => 14,
        Function::Opendir => 15,
        Function::Read => 16,
        Function::Readdir => 17,
        Function::Removexattr => 18,
        Function::Rename => 19,
        Function::Rmdir => 20,
        Function::Setxattr => 21,
        Function::Stat => 22,
        Function::StatVFS => 23,
        Function::Telldir => 24,
        Function::Unlink => 25,
        Function::Utimes => 26,
        Function::Write => 27,
    }
}

/// Every function has a place of its own in the order.
pub proof fn law_each_function_is_looked_up_once(f: Function, i: int)
    ensures
        lookup_order().len() == FUNCTIONS,
        0 <= place(f) < FUNCTIONS,
        lookup_order()[place(f)] == f,
        0 <= i < FUNCTIONS ==> place(lookup_order()[i]) == i,
{
}

/// The function at a place in the order.
pub(crate) fn function_at(n: usize) -> (f: Function)
    requires
        n < FUNCTIONS,
    ensures
        f == lookup_order()[n as int],
{
    match n {
        0 => Function::Chmod,
        1 => Function::Close,
        2 => Function::Closedir,
        3 => Function::Creat,
        4 => Function::Fstat,
        5 => Function::FstatVFS,
        6 => Function::Fstatdir,
        7 => Function::Ftruncate,
        8 => Function::Getdents,
        9 => Function::Getxattr,
        10 => Function::Listxattr,
        11 => Function::Lseek,
        12 => Function::Lseekdir,
        13 => Function::Mkdir,
        14 => Function::Open,
        15 => Function::Opendir,
        16 => Function::Read,
        17 => Function::Readdir,
        18 => Function::Removexattr,
        19 => Function::Rename,
        20 => Function::Rmdir,
        21 => Function::Setxattr,
        22 => Function::Stat,
        23 => Function::StatVFS,
        24 => Function::Telldir,
        25 => Function::Unlink,
        26 => Function::Utimes,
        _ => Function::Write,
    }
}

/// The addresses of the functions of a context; null where one was not looked up.
#[derive(Debug, Clone, Copy, PartialEq, Eq, Structural)]
pub struct Functions {
    pub chmod_fn: usize,
    pub close_fn: usize,
    pub closedir_fn: usize,
    pub creat_fn: usize,
    pub fstat_fn: usize,
    pub fstatvfs_fn: usize,
    pub fstatdir_fn: usize,
    pub ftruncate_fn: usize,
    pub getdents_fn: usize,
    pub getxattr_fn: usize,
    pub listxattr_fn: usize,
    pub lseek_fn: usize,
    pub lseekdir_fn: usize,
    pub mkdir_fn: usize,
    pub open_fn: usize,
    pub opendir_fn: usize,
    pub read_fn: usize,
    pub readdir_fn: usize,
    pub removexattr_fn: usize,
    pub rename_fn: usize,
    pub rmdir_fn: usize,
    pub setxattr_fn: usize,
    pub stat_fn: usize,
    pub statvfs_fn: usize,
    pub telldir_fn: usize,
    pub unlink_fn: usize,
    pub utimes_fn: usize,
    pub write_fn: usize,
}

impl Functions {
    /// The address of a function.
    pub open spec fn address_spec(self, f: Function) -> usize {
        match f {
            Function::Chmod => self.chmod_fn,
            Function::Close => self.close_fn,
            Function::Closedir => self.closedir_fn,
            Function::Creat => self.creat_fn,
            Function::Fstat => self.fstat_fn,
            Function::FstatVFS => self.fstatvfs_fn,
            Function::Fstatdir => self.fstatdir_fn,
            Function::Ftruncate => self.ftruncate_fn,
            Function::Getdents => self.getdents_fn,
            Function::Getxattr => self.getxattr_fn,
            Function::Listxattr => self.listxattr_fn,
            Function::Lseek => self.lseek_fn,
            Function::Lseekdir => self.lseekdir_fn,
            Function::Mkdir => self.mkdir_fn,
            Function::Open => self.open_fn,
            Function::Opendir => self.opendir_fn,
            Function::Read => self.read_fn,
            Function::Readdir => self.readdir_fn,
            Function::Removexattr => self.removexattr_fn,
            Function::Rename => self.rename_fn,
            Function::Rmdir => self.rmdir_fn,
            Function::Setxattr => self.setxattr_fn,
            Function::Stat => self.stat_fn,
            Function::StatVFS => self.statvfs_fn,
            Function::Telldir => self.telldir_fn,
            Function::Unlink => self.unlink_fn,
            Function::Utimes => self.utimes_fn,
            Function::Write => self.write_fn,
        }
    }

    /// The functions with the address of one of them replaced.
    pub open spec fn with_spec(self, f: Function, address: usize) -> Functions {
        match f {
            Function::Chmod => Functions { chmod_fn: address, ..self },
            Function::Close => Functions { close_fn: address, ..self },
            Function::Closedir => Functions { closedir_fn: address, ..self },
            Function::Creat => Functions { creat_fn: address, ..self },
            Function::Fstat => Functions { fstat_fn: address, ..self },
            Function::FstatVFS => Functions { fstatvfs_fn: address, ..self },
            Function::Fstatdir => Functions { fstatdir_fn: address, ..self },
            Function::Ftruncate => Functions { ftruncate_fn: address, ..self },
            Function::Getdents => Functions { getdents_fn: address, ..self },
            Function::Getxattr => Functions { getxattr_fn: address, ..self },
            Function::Listxattr => Functions { listxattr_fn: address, ..self },
            Function::Lseek => Functions { lseek_fn: address, ..self },
            Function::Lseekdir => Functions { lseekdir_fn: address, ..self },
            Function::Mkdir => Functions { mkdir_fn: address, ..self },
            Function::Open => Functions { open_fn: address, ..self },
            Function::Opendir => Functions { opendir_fn: address, ..self },
            Function::Read => Functions { read_fn: address, ..self },
            Function::Readdir => Functions { readdir_fn: address, ..self },
            Function::Removexattr => Functions { removexattr_fn: address, ..self },
            Function::Rename => Functions { rename_fn: address, ..self },
            Function::Rmdir => Functions { rmdir_fn: address, ..self },
            Function::Setxattr => Functions { setxattr_fn: address, ..self },
            Function::Stat => Functions { stat_fn: address, ..self },
            Function::StatVFS => Functions { statvfs_fn: address, ..self },
            Function::Telldir => Functions { telldir_fn: address, ..self },
            Function::Unlink => Functions { unlink_fn: address, ..self },
            Function::Utimes => Functions { utimes_fn: address, ..self },
            Function::Write => Functions { write_fn: address, ..self },
        }
    }

    /// No function was looked up.
    pub open spec fn none_spec() -> Functions {
        Functions {
            chmod_fn: 0,
            close_fn: 0,
            closedir_fn: 0,
            creat_fn: 0,
            fstat_fn: 0,
            fstatvfs_fn: 0,
            fstatdir_fn: 0,
            ftruncate_fn: 0,
            getdents_fn: 0,
            getxattr_fn: 0,
            listxattr_fn: 0,
            lseek_fn: 0,
            lseekdir_fn: 0,
            mkdir_fn: 0,
            open_fn: 0,
            opendir_fn: 0,
            read_fn: 0,
            readdir_fn: 0,
            removexattr_fn: 0,
            rename_fn: 0,
            rmdir_fn: 0,
            setxattr_fn: 0,
            stat_fn: 0,
            statvfs_fn: 0,
            telldir_fn: 0,
            unlink_fn: 0,
            utimes_fn: 0,
            write_fn: 0,
        }
    }

    /// No function was looked up.
    pub fn none() -> (r: Functions)
        ensures
            r == Functions::none_spec(),
    {
        Functions {
            chmod_fn: 0,
            close_fn: 0,
            closedir_fn: 0,
            creat_fn: 0,
            fstat_fn: 0,
            fstatvfs_fn: 0,
            fstatdir_fn: 0,
            ftruncate_fn: 0,
            getdents_fn: 0,
            getxattr_fn: 0,
            listxattr_fn: 0,
            lseek_fn: 0,
            lseekdir_fn: 0,
            mkdir_fn: 0,
            open_fn: 0,
            opendir_fn: 0,
            read_fn: 0,
            readdir_fn: 0,
            removexattr_fn: 0,
            rename_fn: 0,
            rmdir_fn: 0,
            setxattr_fn: 0,
            stat_fn: 0,
            statvfs_fn: 0,
            telldir_fn: 0,
            unlink_fn: 0,
            utimes_fn: 0,
            write_fn: 0,
        }
    }

    /// The functions with the address of one of them replaced.
    pub fn with(&self, f: Function, address: usize) -> (r: Functions)
        ensures
            r == self.with_spec(f, address),
    {
        let mut r = *self;
        match f {
            Function::Chmod => r.chmod_fn = address,
            Function::Close => r.close_fn = address,
            Function::Closedir => r.closedir_fn = address,
            Function::Creat => r.creat_fn = address,
            Function::Fstat => r.fstat_fn = address,
            Function::FstatVFS => r.fstatvfs_fn = address,
            Function::Fstatdir => r.fstatdir_fn = address,
            Function::Ftruncate => r.ftruncate_fn = address,
            Function::Getdents => r.getdents_fn = address,
            Function::Getxattr => r.getxattr_fn = address,
            Function::Listxattr => r.listxattr_fn = address,
            Function::Lseek => r.lseek_fn = address,
            Function::Lseekdir => r.lseekdir_fn = address,
            Function::Mkdir => r.mkdir_fn = address,
            Function::Open => r.open_fn = address,
            Function::Opendir => r.opendir_fn = address,
            Function::Read => r.read_fn = address,
            Function::Readdir => r.readdir_fn = address,
            Function::Removexattr => r.removexattr_fn = address,
            Function::Rename => r.rename_fn = address,
            Function::Rmdir => r.rmdir_fn = address,
            Function::Setxattr => r.setxattr_fn = address,
            Function::Stat => r.stat_fn = address,
            Function::StatVFS => r.statvfs_fn = address,
            Function::Telldir => r.telldir_fn = address,
            Function::Unlink => r.unlink_fn = address,
            Function::Utimes => r.utimes_fn = address,
            Function::Write => r.write_fn = address,
        }
        r
    }
}

/// Replacing the address of a function changes that address and no other.
#[verifier::rlimit(60)]
#[verifier::spinoff_prover]
pub proof fn law_each_function_has_its_own_address(
    functions: Functions,
    f: Function,
    address: usize,
    g: Function,
)
    ensures
        functions.with_spec(f, address).address_spec(g) == if f == g {
            address
        } else {
            functions.address_spec(g)
        },
{
}

/// Each address belongs to the function that the field is named after.
pub proof fn law_addresses_have_names(functions: Functions)
    ensures
        functions.address_spec(Function::Chmod) == functions.chmod_fn,
        functions.address_spec(Function::Close) == functions.close_fn,
        functions.address_spec(Function::Closedir) == functions.closedir_fn,
        functions.address_spec(Function::Creat) == functions.creat_fn,
        functions.address_spec(Function::Fstat) == functions.fstat_fn,
        functions.address_spec(Function::FstatVFS) == functions.fstatvfs_fn,
        functions.address_spec(Function::Fstatdir) == functions.fstatdir_fn,
        functions.address_spec(Function::Ftruncate) == functions.ftruncate_fn,
        functions.address_spec(Function::Getdents) == functions.getdents_fn,
        functions.address_spec(Function::Getxattr) == functions.getxattr_fn,
        functions.address_spec(Function::Listxattr) == functions.listxattr_fn,
        functions.address_spec(Function::Lseek) == functions.lseek_fn,
        functions.address_spec(Function::Lseekdir) == functions.lseekdir_fn,
        functions.address_spec(Function::Mkdir) == functions.mkdir_fn,
        functions.address_spec(Function::Open) == functions.open_fn,
        functions.address_spec(Function::Opendir) == functions.opendir_fn,
        functions.address_spec(Function::Read) == functions.read_fn,
        functions.address_spec(Function::Readdir) == functions.readdir_fn,
        functions.address_spec(Function::Removexattr) == functions.removexattr_fn,
        functions.address_spec(Function::Rename) == functions.rename_fn,
        functions.address_spec(Function::Rmdir) == functions.rmdir_fn,
        functions.address_spec(Function::Setxattr) == functions.setxattr_fn,
        functions.address_spec(Function::Stat) == functions.stat_fn,
        functions.address_spec(Function::StatVFS) == functions.statvfs_fn,
        functions.address_spec(Function::Telldir) == functions.telldir_fn,
        functions.address_spec(Function::Unlink) == functions.unlink_fn,
        functions.address_spec(Function::Utimes) == functions.utimes_fn,
        functions.address_spec(Function::Write) == functions.write_fn,
{
}

/// Before anything is looked up no function has an address.
pub proof fn law_nothing_is_found_at_first(f: Function)
    ensures
        Functions::none_spec().address_spec(f) == 0,
{
}

} // verus!
