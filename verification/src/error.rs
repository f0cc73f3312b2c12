use vstd::prelude::*;

verus! {

/// Kernel failure classification: the symbolic code attached to a negative
/// dispatch result. The set of named codes is open (`non_exhaustive`); any
/// numeric value outside it is carried verbatim by `UNKNOWN`.
#[allow(non_camel_case_types)]
#[non_exhaustive]
#[derive(Clone, Copy, Debug, PartialEq, Eq, Structural)]
pub enum Error {
    EPERM,
    ENOENT,
    ESRCH,
    EINTR,
    EIO,
    ENXIO,
    E2BIG,
    ENOEXEC,
    EBADF,
    ECHILD,
    EAGAIN,
    ENOMEM,
    EACCES,
    EFAULT,
    ENOTBLK,
    EBUSY,
    EEXIST,
    EXDEV,
    ENODEV,
    ENOTDIR,
    EISDIR,
    EINVAL,
    ENFILE,
    EMFILE,
    ENOTTY,
    ETXTBSY,
    EFBIG,
    ENOSPC,
    ESPIPE,
    EROFS,
    EMLINK,
    EPIPE,
    EDOM,
    ERANGE,
    EDEADLK,
    ENAMETOOLONG,
    ENOLCK,
    ENOSYS,
    ENOTEMPTY,
    ELOOP,
    ENOMSG,
    EIDRM,
    ECHRNG,
    EL2NSYNC,
    EL3HLT,
    EL3RST,
    ELNRNG,
    EUNATCH,
    ENOCSI,
    EL2HLT,
    EBADE,
    EBADR,
    EXFULL,
    ENOANO,
    EBADRQC,
    EBADSLT,
    EBFONT,
    ENOSTR,
    ENODATA,
    ETIME,
    ENOSR,
    ENONET,
    ENOPKG,
    EREMOTE,
    ENOLINK,
    EADV,
    ESRMNT,
    ECOMM,
    EPROTO,
    EMULTIHOP,
    EDOTDOT,
    EBADMSG,
    EOVERFLOW,
    ENOTUNIQ,
    EBADFD,
    EREMCHG,
    ELIBACC,
    ELIBBAD,
    ELIBSCN,
    ELIBMAX,
    ELIBEXEC,
    EILSEQ,
    ERESTART,
    ESTRPIPE,
    EUSERS,
    ENOTSOCK,
    EDESTADDRREQ,
    EMSGSIZE,
    EPROTOTYPE,
    ENOPROTOOPT,
    EPROTONOSUPPORT,
    ESOCKTNOSUPPORT,
    EOPNOTSUPP,
    EPFNOSUPPORT,
    EAFNOSUPPORT,
    EADDRINUSE,
    EADDRNOTAVAIL,
    ENETDOWN,
    ENETUNREACH,
    ENETRESET,
    ECONNABORTED,
    ECONNRESET,
    ENOBUFS,
    EISCONN,
    ENOTCONN,
    ESHUTDOWN,
    ETOOMANYREFS,
    ETIMEDOUT,
    ECONNREFUSED,
    EHOSTDOWN,
    EHOSTUNREACH,
    EALREADY,
    EINPROGRESS,
    ESTALE,
    EUCLEAN,
    ENOTNAM,
    ENAVAIL,
    EISNAM,
    EREMOTEIO,
    EDQUOT,
    ENOMEDIUM,
    EMEDIUMTYPE,
    ECANCELED,
    ENOKEY,
    EKEYEXPIRED,
    EKEYREVOKED,
    EKEYREJECTED,
    EOWNERDEAD,
    ENOTRECOVERABLE,
    ERFKILL,
    EHWPOISON,
    UNKNOWN(u32),
}

/// The numeric codes that have a named entry in the table. The table spans
/// 1 through 133 with gaps at the reserved numbers 41 and 58.
pub open spec fn is_defined_code(code: u32) -> bool {
    1 <= code <= 133 && code != 41 && code != 58
}

/// The numeric value of each classification.
pub open spec fn spec_code(e: Error) -> u32 {
    match e {
        Error::EPERM => 1,
        Error::ENOENT => 2,
        Error::ESRCH => 3,
        Error::EINTR => 4,
        Error::EIO => 5,
        Error::ENXIO => 6,
        Error::E2BIG => 7,
        Error::ENOEXEC => 8,
        Error::EBADF => 9,
        Error::ECHILD => 10,
        Error::EAGAIN => 11,
        Error::ENOMEM => 12,
        Error::EACCES => 13,
        Error::EFAULT => 14,
        Error::ENOTBLK => 15,
        Error::EBUSY => 16,
        Error::EEXIST => 17,
        Error::EXDEV => 18,
        Error::ENODEV => 19,
        Error::ENOTDIR => 20,
        Error::EISDIR => 21,
        Error::EINVAL => 22,
        Error::ENFILE => 23,
        Error::EMFILE => 24,
        Error::ENOTTY => 25,
        Error::ETXTBSY => 26,
        Error::EFBIG => 27,
        Error::ENOSPC => 28,
        Error::ESPIPE => 29,
        Error::EROFS => 30,
        Error::EMLINK => 31,
        Error::EPIPE => 32,
        Error::EDOM => 33,
        Error::ERANGE => 34,
        Error::EDEADLK => 35,
        Error::ENAMETOOLONG => 36,
        Error::ENOLCK => 37,
        Error::ENOSYS => 38,
        Error::ENOTEMPTY => 39,
        Error::ELOOP => 40,
        Error::ENOMSG => 42,
        Error::EIDRM => 43,
        Error::ECHRNG => 44,
        Error::EL2NSYNC => 45,
        Error::EL3HLT => 46,
        Error::EL3RST => 47,
        Error::ELNRNG => 48,
        Error::EUNATCH => 49,
        Error::ENOCSI => 50,
        Error::EL2HLT => 51,
        Error::EBADE => 52,
        Error::EBADR => 53,
        Error::EXFULL => 54,
        Error::ENOANO => 55,
        Error::EBADRQC => 56,
        Error::EBADSLT => 57,
        Error::EBFONT => 59,
        Error::ENOSTR => 60,
        Error::ENODATA => 61,
        Error::ETIME => 62,
        Error::ENOSR => 63,
        Error::ENONET => 64,
        Error::ENOPKG => 65,
        Error::EREMOTE => 66,
        Error::ENOLINK => 67,
        Error::EADV => 68,
        Error::ESRMNT => 69,
        Error::ECOMM => 70,
        Error::EPROTO => 71,
        Error::EMULTIHOP => 72,
        Error::EDOTDOT => 73,
        Error::EBADMSG => 74,
        Error::EOVERFLOW => 75,
        Error::ENOTUNIQ => 76,
        Error::EBADFD => 77,
        Error::EREMCHG => 78,
        Error::ELIBACC => 79,
        Error::ELIBBAD => 80,
        Error::ELIBSCN => 81,
        Error::ELIBMAX => 82,
        Error::ELIBEXEC => 83,
        Error::EILSEQ => 84,
        Error::ERESTART => 85,
        Error::ESTRPIPE => 86,
        Error::EUSERS => 87,
        Error::ENOTSOCK => 88,
        Error::EDESTADDRREQ => 89,
        Error::EMSGSIZE => 90,
        Error::EPROTOTYPE => 91,
        Error::ENOPROTOOPT => 92,
        Error::EPROTONOSUPPORT => 93,
        Error::ESOCKTNOSUPPORT => 94,
        Error::EOPNOTSUPP => 95,
        Error::EPFNOSUPPORT => 96,
        Error::EAFNOSUPPORT => 97,
        Error::EADDRINUSE => 98,
        Error::EADDRNOTAVAIL => 99,
        Error::ENETDOWN => 100,
        Error::ENETUNREACH => 101,
        Error::ENETRESET => 102,
        Error::ECONNABORTED => 103,
        Error::ECONNRESET => 104,
        Error::ENOBUFS => 105,
        Error::EISCONN => 106,
        Error::ENOTCONN => 107,
        Error::ESHUTDOWN => 108,
        Error::ETOOMANYREFS => 109,
        Error::ETIMEDOUT => 110,
        Error::ECONNREFUSED => 111,
        Error::EHOSTDOWN => 112,
        Error::EHOSTUNREACH => 113,
        Error::EALREADY => 114,
        Error::EINPROGRESS => 115,
        Error::ESTALE => 116,
        Error::EUCLEAN => 117,
        Error::ENOTNAM => 118,
        Error::ENAVAIL => 119,
        Error::EISNAM => 120,
        Error::EREMOTEIO => 121,
        Error::EDQUOT => 122,
        Error::ENOMEDIUM => 123,
        Error::EMEDIUMTYPE => 124,
        Error::ECANCELED => 125,
        Error::ENOKEY => 126,
        Error::EKEYEXPIRED => 127,
        Error::EKEYREVOKED => 128,
        Error::EKEYREJECTED => 129,
        Error::EOWNERDEAD => 130,
        Error::ENOTRECOVERABLE => 131,
        Error::ERFKILL => 132,
        Error::EHWPOISON => 133,
        Error::UNKNOWN(v) => v,
    }
}

/// The classification of each numeric code; codes without a named entry
/// map to `UNKNOWN` carrying the exact value.
pub open spec fn spec_from_code(code: u32) -> Error {
    if code == 1 {
        Error::EPERM
    } else if code == 2 {
        Error::ENOENT
    } else if code == 3 {
        Error::ESRCH
    } else if code == 4 {
        Error::EINTR
    } else if code == 5 {
        Error::EIO
    } else if code == 6 {
        Error::ENXIO
    } else if code == 7 {
        Error::E2BIG
    } else if code == 8 {
        Error::ENOEXEC
    } else if code == 9 {
        Error::EBADF
    } else if code == 10 {
        Error::ECHILD
    } else if code == 11 {
        Error::EAGAIN
    } else if code == 12 {
        Error::ENOMEM
    } else if code == 13 {
        Error::EACCES
    } else if code == 14 {
        Error::EFAULT
    } else if code == 15 {
        Error::ENOTBLK
    } else if code == 16 {
        Error::EBUSY
    } else if code == 17 {
        Error::EEXIST
    } else if code == 18 {
        Error::EXDEV
    } else if code == 19 {
        Error::ENODEV
    } else if code == 20 {
        Error::ENOTDIR
    } else if code == 21 {
        Error::EISDIR
    } else if code == 22 {
        Error::EINVAL
    } else if code == 23 {
        Error::ENFILE
    } else if code == 24 {
        Error::EMFILE
    } else if code == 25 {
        Error::ENOTTY
    } else if code == 26 {
        Error::ETXTBSY
    } else if code == 27 {
        Error::EFBIG
    } else if code == 28 {
        Error::ENOSPC
    } else if code == 29 {
        Error::ESPIPE
    } else if code == 30 {
        Error::EROFS
    } else if code == 31 {
        Error::EMLINK
    } else if code == 32 {
        Error::EPIPE
    } else if code == 33 {
        Error::EDOM
    } else if code == 34 {
        Error::ERANGE
    } else if code == 35 {
        Error::EDEADLK
    } else if code == 36 {
        Error::ENAMETOOLONG
    } else if code == 37 {
        Error::ENOLCK
    } else if code == 38 {
        Error::ENOSYS
    } else if code == 39 {
        Error::ENOTEMPTY
    } else if code == 40 {
        Error::ELOOP
    } else if code == 42 {
        Error::ENOMSG
    } else if code == 43 {
        Error::EIDRM
    } else if code == 44 {
        Error::ECHRNG
    } else if code == 45 {
        Error::EL2NSYNC
    } else if code == 46 {
        Error::EL3HLT
    } else if code == 47 {
        Error::EL3RST
    } else if code == 48 {
        Error::ELNRNG
    } else if code == 49 {
        Error::EUNATCH
    } else if code == 50 {
        Error::ENOCSI
    } else if code == 51 {
        Error::EL2HLT
    } else if code == 52 {
        Error::EBADE
    } else if code == 53 {
        Error::EBADR
    } else if code == 54 {
        Error::EXFULL
    } else if code == 55 {
        Error::ENOANO
    } else if code == 56 {
        Error::EBADRQC
    } else if code == 57 {
        Error::EBADSLT
    } else if code == 59 {
        Error::EBFONT
    } else if code == 60 {
        Error::ENOSTR
    } else if code == 61 {
        Error::ENODATA
    } else if code == 62 {
        Error::ETIME
    } else if code == 63 {
        Error::ENOSR
    } else if code == 64 {
        Error::ENONET
    } else if code == 65 {
        Error::ENOPKG
    } else if code == 66 {
        Error::EREMOTE
    } else if code == 67 {
        Error::ENOLINK
    } else if code == 68 {
        Error::EADV
    } else if code == 69 {
        Error::ESRMNT
    } else if code == 70 {
        Error::ECOMM
    } else if code == 71 {
        Error::EPROTO
    } else if code == 72 {
        Error::EMULTIHOP
    } else if code == 73 {
        Error::EDOTDOT
    } else if code == 74 {
        Error::EBADMSG
    } else if code == 75 {
        Error::EOVERFLOW
    } else if code == 76 {
        Error::ENOTUNIQ
    } else if code == 77 {
        Error::EBADFD
    } else if code == 78 {
        Error::EREMCHG
    } else if code == 79 {
        Error::ELIBACC
    } else if code == 80 {
        Error::ELIBBAD
    } else if code == 81 {
        Error::ELIBSCN
    } else if code == 82 {
        Error::ELIBMAX
    } else if code == 83 {
        Error::ELIBEXEC
    } else if code == 84 {
        Error::EILSEQ
    } else if code == 85 {
        Error::ERESTART
    } else if code == 86 {
        Error::ESTRPIPE
    } else if code == 87 {
        Error::EUSERS
    } else if code == 88 {
        Error::ENOTSOCK
    } else if code == 89 {
        Error::EDESTADDRREQ
    } else if code == 90 {
        Error::EMSGSIZE
    } else if code == 91 {
        Error::EPROTOTYPE
    } else if code == 92 {
        Error::ENOPROTOOPT
    } else if code == 93 {
        Error::EPROTONOSUPPORT
    } else if code == 94 {
        Error::ESOCKTNOSUPPORT
    } else if code == 95 {
        Error::EOPNOTSUPP
    } else if code == 96 {
        Error::EPFNOSUPPORT
    } else if code == 97 {
        Error::EAFNOSUPPORT
    } else if code == 98 {
        Error::EADDRINUSE
    } else if code == 99 {
        Error::EADDRNOTAVAIL
    } else if code == 100 {
        Error::ENETDOWN
    } else if code == 101 {
        Error::ENETUNREACH
    } else if code == 102 {
        Error::ENETRESET
    } else if code == 103 {
        Error::ECONNABORTED
    } else if code == 104 {
        Error::ECONNRESET
    } else if code == 105 {
        Error::ENOBUFS
    } else if code == 106 {
        Error::EISCONN
    } else if code == 107 {
        Error::ENOTCONN
    } else if code == 108 {
        Error::ESHUTDOWN
    } else if code == 109 {
        Error::ETOOMANYREFS
    } else if code == 110 {
        Error::ETIMEDOUT
    } else if code == 111 {
        Error::ECONNREFUSED
    } else if code == 112 {
        Error::EHOSTDOWN
    } else if code == 113 {
        Error::EHOSTUNREACH
    } else if code == 114 {
        Error::EALREADY
    } else if code == 115 {
        Error::EINPROGRESS
    } else if code == 116 {
        Error::ESTALE
    } else if code == 117 {
        Error::EUCLEAN
    } else if code == 118 {
        Error::ENOTNAM
    } else if code == 119 {
        Error::ENAVAIL
    } else if code == 120 {
        Error::EISNAM
    } else if code == 121 {
        Error::EREMOTEIO
    } else if code == 122 {
        Error::EDQUOT
    } else if code == 123 {
        Error::ENOMEDIUM
    } else if code == 124 {
        Error::EMEDIUMTYPE
    } else if code == 125 {
        Error::ECANCELED
    } else if code == 126 {
        Error::ENOKEY
    } else if code == 127 {
        Error::EKEYEXPIRED
    } else if code == 128 {
        Error::EKEYREVOKED
    } else if code == 129 {
        Error::EKEYREJECTED
    } else if code == 130 {
        Error::EOWNERDEAD
    } else if code == 131 {
        Error::ENOTRECOVERABLE
    } else if code == 132 {
        Error::ERFKILL
    } else if code == 133 {
        Error::EHWPOISON
    } else {
        Error::UNKNOWN(code)
    }
}

/// The symbolic name of each classification.
pub open spec fn spec_name(e: Error) -> Seq<char> {
    match e {
        Error::EPERM => "EPERM"@,
        Error::ENOENT => "ENOENT"@,
        Error::ESRCH => "ESRCH"@,
        Error::EINTR => "EINTR"@,
        Error::EIO => "EIO"@,
        Error::ENXIO => "ENXIO"@,
        Error::E2BIG => "E2BIG"@,
        Error::ENOEXEC => "ENOEXEC"@,
        Error::EBADF => "EBADF"@,
        Error::ECHILD => "ECHILD"@,
        Error::EAGAIN => "EAGAIN"@,
        Error::ENOMEM => "ENOMEM"@,
        Error::EACCES => "EACCES"@,
        Error::EFAULT => "EFAULT"@,
        Error::ENOTBLK => "ENOTBLK"@,
        Error::EBUSY => "EBUSY"@,
        Error::EEXIST => "EEXIST"@,
        Error::EXDEV => "EXDEV"@,
        Error::ENODEV => "ENODEV"@,
        Error::ENOTDIR => "ENOTDIR"@,
        Error::EISDIR => "EISDIR"@,
        Error::EINVAL => "EINVAL"@,
        Error::ENFILE => "ENFILE"@,
        Error::EMFILE => "EMFILE"@,
        Error::ENOTTY => "ENOTTY"@,
        Error::ETXTBSY => "ETXTBSY"@,
        Error::EFBIG => "EFBIG"@,
        Error::ENOSPC => "ENOSPC"@,
        Error::ESPIPE => "ESPIPE"@,
        Error::EROFS => "EROFS"@,
        Error::EMLINK => "EMLINK"@,
        Error::EPIPE => "EPIPE"@,
        Error::EDOM => "EDOM"@,
        Error::ERANGE => "ERANGE"@,
        Error::EDEADLK => "EDEADLK"@,
        Error::ENAMETOOLONG => "ENAMETOOLONG"@,
        Error::ENOLCK => "ENOLCK"@,
        Error::ENOSYS => "ENOSYS"@,
        Error::ENOTEMPTY => "ENOTEMPTY"@,
        Error::ELOOP => "ELOOP"@,
        Error::ENOMSG => "ENOMSG"@,
        Error::EIDRM => "EIDRM"@,
        Error::ECHRNG => "ECHRNG"@,
        Error::EL2NSYNC => "EL2NSYNC"@,
        Error::EL3HLT => "EL3HLT"@,
        Error::EL3RST => "EL3RST"@,
        Error::ELNRNG => "ELNRNG"@,
        Error::EUNATCH => "EUNATCH"@,
        Error::ENOCSI => "ENOCSI"@,
        Error::EL2HLT => "EL2HLT"@,
        Error::EBADE => "EBADE"@,
        Error::EBADR => "EBADR"@,
        Error::EXFULL => "EXFULL"@,
        Error::ENOANO => "ENOANO"@,
        Error::EBADRQC => "EBADRQC"@,
        Error::EBADSLT => "EBADSLT"@,
        Error::EBFONT => "EBFONT"@,
        Error::ENOSTR => "ENOSTR"@,
        Error::ENODATA => "ENODATA"@,
        Error::ETIME => "ETIME"@,
        Error::ENOSR => "ENOSR"@,
        Error::ENONET => "ENONET"@,
        Error::ENOPKG => "ENOPKG"@,
        Error::EREMOTE => "EREMOTE"@,
        Error::ENOLINK => "ENOLINK"@,
        Error::EADV => "EADV"@,
        Error::ESRMNT => "ESRMNT"@,
        Error::ECOMM => "ECOMM"@,
        Error::EPROTO => "EPROTO"@,
        Error::EMULTIHOP => "EMULTIHOP"@,
        Error::EDOTDOT => "EDOTDOT"@,
        Error::EBADMSG => "EBADMSG"@,
        Error::EOVERFLOW => "EOVERFLOW"@,
        Error::ENOTUNIQ => "ENOTUNIQ"@,
        Error::EBADFD => "EBADFD"@,
        Error::EREMCHG => "EREMCHG"@,
        Error::ELIBACC => "ELIBACC"@,
        Error::ELIBBAD => "ELIBBAD"@,
        Error::ELIBSCN => "ELIBSCN"@,
        Error::ELIBMAX => "ELIBMAX"@,
        Error::ELIBEXEC => "ELIBEXEC"@,
        Error::EILSEQ => "EILSEQ"@,
        Error::ERESTART => "ERESTART"@,
        Error::ESTRPIPE => "ESTRPIPE"@,
        Error::EUSERS => "EUSERS"@,
        Error::ENOTSOCK => "ENOTSOCK"@,
        Error::EDESTADDRREQ => "EDESTADDRREQ"@,
        Error::EMSGSIZE => "EMSGSIZE"@,
        Error::EPROTOTYPE => "EPROTOTYPE"@,
        Error::ENOPROTOOPT => "ENOPROTOOPT"@,
        Error::EPROTONOSUPPORT => "EPROTONOSUPPORT"@,
        Error::ESOCKTNOSUPPORT => "ESOCKTNOSUPPORT"@,
        Error::EOPNOTSUPP => "EOPNOTSUPP"@,
        Error::EPFNOSUPPORT => "EPFNOSUPPORT"@,
        Error::EAFNOSUPPORT => "EAFNOSUPPORT"@,
        Error::EADDRINUSE => "EADDRINUSE"@,
        Error::EADDRNOTAVAIL => "EADDRNOTAVAIL"@,
        Error::ENETDOWN => "ENETDOWN"@,
        Error::ENETUNREACH => "ENETUNREACH"@,
        Error::ENETRESET => "ENETRESET"@,
        Error::ECONNABORTED => "ECONNABORTED"@,
        Error::ECONNRESET => "ECONNRESET"@,
        Error::ENOBUFS => "ENOBUFS"@,
        Error::EISCONN => "EISCONN"@,
        Error::ENOTCONN => "ENOTCONN"@,
        Error::ESHUTDOWN => "ESHUTDOWN"@,
        Error::ETOOMANYREFS => "ETOOMANYREFS"@,
        Error::ETIMEDOUT => "ETIMEDOUT"@,
        Error::ECONNREFUSED => "ECONNREFUSED"@,
        Error::EHOSTDOWN => "EHOSTDOWN"@,
        Error::EHOSTUNREACH => "EHOSTUNREACH"@,
        Error::EALREADY => "EALREADY"@,
        Error::EINPROGRESS => "EINPROGRESS"@,
        Error::ESTALE => "ESTALE"@,
        Error::EUCLEAN => "EUCLEAN"@,
        Error::ENOTNAM => "ENOTNAM"@,
        Error::ENAVAIL => "ENAVAIL"@,
        Error::EISNAM => "EISNAM"@,
        Error::EREMOTEIO => "EREMOTEIO"@,
        Error::EDQUOT => "EDQUOT"@,
        Error::ENOMEDIUM => "ENOMEDIUM"@,
        Error::EMEDIUMTYPE => "EMEDIUMTYPE"@,
        Error::ECANCELED => "ECANCELED"@,
        Error::ENOKEY => "ENOKEY"@,
        Error::EKEYEXPIRED => "EKEYEXPIRED"@,
        Error::EKEYREVOKED => "EKEYREVOKED"@,
        Error::EKEYREJECTED => "EKEYREJECTED"@,
        Error::EOWNERDEAD => "EOWNERDEAD"@,
        Error::ENOTRECOVERABLE => "ENOTRECOVERABLE"@,
        Error::ERFKILL => "ERFKILL"@,
        Error::EHWPOISON => "EHWPOISON"@,
        Error::UNKNOWN(_) => "UNKNOWN"@,
    }
}

/// The one-line human description of each classification.
pub open spec fn spec_message(e: Error) -> Seq<char> {
    match e {
        Error::EPERM => "Operation not permitted"@,
        Error::ENOENT => "No such file or directory"@,
        Error::ESRCH => "No such process"@,
        Error::EINTR => "Interrupted system call"@,
        Error::EIO => "I/O error"@,
        Error::ENXIO => "No such device or address"@,
        Error::E2BIG => "Argument list too long"@,
        Error::ENOEXEC => "Exec format error"@,
        Error::EBADF => "Bad file number"@,
        Error::ECHILD => "No child processes"@,
        Error::EAGAIN => "Try again"@,
        Error::ENOMEM => "Out of memory"@,
        Error::EACCES => "Permission denied"@,
        Error::EFAULT => "Bad address"@,
        Error::ENOTBLK => "Block device required"@,
        Error::EBUSY => "Device or resource busy"@,
        Error::EEXIST => "File exists"@,
        Error::EXDEV => "Cross-device link"@,
        Error::ENODEV => "No such device"@,
        Error::ENOTDIR => "Not a directory"@,
        Error::EISDIR => "Is a directory"@,
        Error::EINVAL => "Invalid argument"@,
        Error::ENFILE => "File table overflow"@,
        Error::EMFILE => "Too many open files"@,
        Error::ENOTTY => "Not a typewriter"@,
        Error::ETXTBSY => "Text file busy"@,
        Error::EFBIG => "File too large"@,
        Error::ENOSPC => "No space left on device"@,
        Error::ESPIPE => "Illegal seek"@,
        Error::EROFS => "Read-only file system"@,
        Error::EMLINK => "Too many links"@,
        Error::EPIPE => "Broken pipe"@,
        Error::EDOM => "Math argument out of domain of func"@,
        Error::ERANGE => "Math result not representable"@,
        Error::EDEADLK => "Resource deadlock would occur"@,
        Error::ENAMETOOLONG => "File name too long"@,
        Error::ENOLCK => "No record locks available"@,
        Error::ENOSYS => "Invalid system call number"@,
        Error::ENOTEMPTY => "Directory not empty"@,
        Error::ELOOP => "Too many symbolic links encountered"@,
        Error::ENOMSG => "No message of desired type"@,
        Error::EIDRM => "Identifier removed"@,
        Error::ECHRNG => "Channel number out of range"@,
        Error::EL2NSYNC => "Level 2 not synchronized"@,
        Error::EL3HLT => "Level 3 halted"@,
        Error::EL3RST => "Level 3 reset"@,
        Error::ELNRNG => "Link number out of range"@,
        Error::EUNATCH => "Protocol driver not attached"@,
        Error::ENOCSI => "No CSI structure available"@,
        Error::EL2HLT => "Level 2 halted"@,
        Error::EBADE => "Invalid exchange"@,
        Error::EBADR => "Invalid request descriptor"@,
        Error::EXFULL => "Exchange full"@,
        Error::ENOANO => "No anode"@,
        Error::EBADRQC => "Invalid request code"@,
        Error::EBADSLT => "Invalid slot"@,
        Error::EBFONT => "Bad font file format"@,
        Error::ENOSTR => "Device not a stream"@,
        Error::ENODATA => "No data available"@,
        Error::ETIME => "Timer expired"@,
        Error::ENOSR => "Out of streams resources"@,
        Error::ENONET => "Machine is not on the network"@,
        Error::ENOPKG => "Package not installed"@,
        Error::EREMOTE => "Object is remote"@,
        Error::ENOLINK => "Link has been severed"@,
        Error::EADV => "Advertise error"@,
        Error::ESRMNT => "Srmount error"@,
        Error::ECOMM => "Communication error on send"@,
        Error::EPROTO => "Protocol error"@,
        Error::EMULTIHOP => "Multihop attempted"@,
        Error::EDOTDOT => "RFS specific error"@,
        Error::EBADMSG => "Not a data message"@,
        Error::EOVERFLOW => "Value too large for defined data type"@,
        Error::ENOTUNIQ => "Name not unique on network"@,
        Error::EBADFD => "File descriptor in bad state"@,
        Error::EREMCHG => "Remote address changed"@,
        Error::ELIBACC => "Can not access a needed shared library"@,
        Error::ELIBBAD => "Accessing a corrupted shared library"@,
        Error::ELIBSCN => ".lib section in a.out corrupted"@,
        Error::ELIBMAX => "Attempting to link in too many shared libraries"@,
        Error::ELIBEXEC => "Cannot exec a shared library directly"@,
        Error::EILSEQ => "Illegal byte sequence"@,
        Error::ERESTART => "Interrupted system call should be restarted"@,
        Error::ESTRPIPE => "Streams pipe error"@,
        Error::EUSERS => "Too many users"@,
        Error::ENOTSOCK => "Socket operation on non-socket"@,
        Error::EDESTADDRREQ => "Destination address required"@,
        Error::EMSGSIZE => "Message too long"@,
        Error::EPROTOTYPE => "Protocol wrong type for socket"@,
        Error::ENOPROTOOPT => "Protocol not available"@,
        Error::EPROTONOSUPPORT => "Protocol not supported"@,
        Error::ESOCKTNOSUPPORT => "Socket type not supported"@,
        Error::EOPNOTSUPP => "Operation not supported on transport endpoint"@,
        Error::EPFNOSUPPORT => "Protocol family not supported"@,
        Error::EAFNOSUPPORT => "Address family not supported by protocol"@,
        Error::EADDRINUSE => "Address already in use"@,
        Error::EADDRNOTAVAIL => "Cannot assign requested address"@,
        Error::ENETDOWN => "Network is down"@,
        Error::ENETUNREACH => "Network is unreachable"@,
        Error::ENETRESET => "Network dropped connection because of reset"@,
        Error::ECONNABORTED => "Software caused connection abort"@,
        Error::ECONNRESET => "Connection reset by peer"@,
        Error::ENOBUFS => "No buffer space available"@,
        Error::EISCONN => "Transport endpoint is already connected"@,
        Error::ENOTCONN => "Transport endpoint is not connected"@,
        Error::ESHUTDOWN => "Cannot send after transport endpoint shutdown"@,
        Error::ETOOMANYREFS => "Too many references: cannot splice"@,
        Error::ETIMEDOUT => "Connection timed out"@,
        Error::ECONNREFUSED => "Connection refused"@,
        Error::EHOSTDOWN => "Host is down"@,
        Error::EHOSTUNREACH => "No route to host"@,
        Error::EALREADY => "Operation already in progress"@,
        Error::EINPROGRESS => "Operation now in progress"@,
        Error::ESTALE => "Stale file handle"@,
        Error::EUCLEAN => "Structure needs cleaning"@,
        Error::ENOTNAM => "Not a XENIX named type file"@,
        Error::ENAVAIL => "No XENIX semaphores available"@,
        Error::EISNAM => "Is a named type file"@,
        Error::EREMOTEIO => "Remote I/O error"@,
        Error::EDQUOT => "Quota exceeded"@,
        Error::ENOMEDIUM => "No medium found"@,
        Error::EMEDIUMTYPE => "Wrong medium type"@,
        Error::ECANCELED => "Operation Canceled"@,
        Error::ENOKEY => "Required key not available"@,
        Error::EKEYEXPIRED => "Key has expired"@,
        Error::EKEYREVOKED => "Key has been revoked"@,
        Error::EKEYREJECTED => "Key was rejected by service"@,
        Error::EOWNERDEAD => "Owner died"@,
        Error::ENOTRECOVERABLE => "State not recoverable"@,
        Error::ERFKILL => "Operation not possible due to RF-kill"@,
        Error::EHWPOISON => "Memory page has hardware error"@,
        Error::UNKNOWN(_) => "Unknown enumeration value."@,
    }
}

impl Error {
    /// Build the classification for a raw numeric code.
    pub fn from_code(code: u32) -> (r: Error)
        ensures
            r == spec_from_code(code),
    {
        match code {
            1 => Error::EPERM,
            2 => Error::ENOENT,
            3 => Error::ESRCH,
            4 => Error::EINTR,
            5 => Error::EIO,
            6 => Error::ENXIO,
            7 => Error::E2BIG,
            8 => Error::ENOEXEC,
            9 => Error::EBADF,
            10 => Error::ECHILD,
            11 => Error::EAGAIN,
            12 => Error::ENOMEM,
            13 => Error::EACCES,
            14 => Error::EFAULT,
            15 => Error::ENOTBLK,
            16 => Error::EBUSY,
            17 => Error::EEXIST,
            18 => Error::EXDEV,
            19 => Error::ENODEV,
            20 => Error::ENOTDIR,
            21 => Error::EISDIR,
            22 => Error::EINVAL,
            23 => Error::ENFILE,
            24 => Error::EMFILE,
            25 => Error::ENOTTY,
            26 => Error::ETXTBSY,
            27 => Error::EFBIG,
            28 => Error::ENOSPC,
            29 => Error::ESPIPE,
            30 => Error::EROFS,
            31 => Error::EMLINK,
            32 => Error::EPIPE,
            33 => Error::EDOM,
            34 => Error::ERANGE,
            35 => Error::EDEADLK,
            36 => Error::ENAMETOOLONG,
            37 => Error::ENOLCK,
            38 => Error::ENOSYS,
            39 => Error::ENOTEMPTY,
            40 => Error::ELOOP,
            42 => Error::ENOMSG,
            43 => Error::EIDRM,
            44 => Error::ECHRNG,
            45 => Error::EL2NSYNC,
            46 => Error::EL3HLT,
            47 => Error::EL3RST,
            48 => Error::ELNRNG,
            49 => Error::EUNATCH,
            50 => Error::ENOCSI,
            51 => Error::EL2HLT,
            52 => Error::EBADE,
            53 => Error::EBADR,
            54 => Error::EXFULL,
            55 => Error::ENOANO,
            56 => Error::EBADRQC,
            57 => Error::EBADSLT,
            59 => Error::EBFONT,
            60 => Error::ENOSTR,
            61 => Error::ENODATA,
            62 => Error::ETIME,
            63 => Error::ENOSR,
            64 => Error::ENONET,
            65 => Error::ENOPKG,
            66 => Error::EREMOTE,
            67 => Error::ENOLINK,
            68 => Error::EADV,
            69 => Error::ESRMNT,
            70 => Error::ECOMM,
            71 => Error::EPROTO,
            72 => Error::EMULTIHOP,
            73 => Error::EDOTDOT,
            74 => Error::EBADMSG,
            75 => Error::EOVERFLOW,
            76 => Error::ENOTUNIQ,
            77 => Error::EBADFD,
            78 => Error::EREMCHG,
            79 => Error::ELIBACC,
            80 => Error::ELIBBAD,
            81 => Error::ELIBSCN,
            82 => Error::ELIBMAX,
            83 => Error::ELIBEXEC,
            84 => Error::EILSEQ,
            85 => Error::ERESTART,
            86 => Error::ESTRPIPE,
            87 => Error::EUSERS,
            88 => Error::ENOTSOCK,
            89 => Error::EDESTADDRREQ,
            90 => Error::EMSGSIZE,
            91 => Error::EPROTOTYPE,
            92 => Error::ENOPROTOOPT,
            93 => Error::EPROTONOSUPPORT,
            94 => Error::ESOCKTNOSUPPORT,
            95 => Error::EOPNOTSUPP,
            96 => Error::EPFNOSUPPORT,
            97 => Error::EAFNOSUPPORT,
            98 => Error::EADDRINUSE,
            99 => Error::EADDRNOTAVAIL,
            100 => Error::ENETDOWN,
            101 => Error::ENETUNREACH,
            102 => Error::ENETRESET,
            103 => Error::ECONNABORTED,
            104 => Error::ECONNRESET,
            105 => Error::ENOBUFS,
            106 => Error::EISCONN,
            107 => Error::ENOTCONN,
            108 => Error::ESHUTDOWN,
            109 => Error::ETOOMANYREFS,
            110 => Error::ETIMEDOUT,
            111 => Error::ECONNREFUSED,
            112 => Error::EHOSTDOWN,
            113 => Error::EHOSTUNREACH,
            114 => Error::EALREADY,
            115 => Error::EINPROGRESS,
            116 => Error::ESTALE,
            117 => Error::EUCLEAN,
            118 => Error::ENOTNAM,
            119 => Error::ENAVAIL,
            120 => Error::EISNAM,
            121 => Error::EREMOTEIO,
            122 => Error::EDQUOT,
            123 => Error::ENOMEDIUM,
            124 => Error::EMEDIUMTYPE,
            125 => Error::ECANCELED,
            126 => Error::ENOKEY,
            127 => Error::EKEYEXPIRED,
            128 => Error::EKEYREVOKED,
            129 => Error::EKEYREJECTED,
            130 => Error::EOWNERDEAD,
            131 => Error::ENOTRECOVERABLE,
            132 => Error::ERFKILL,
            133 => Error::EHWPOISON,
            _ => Error::UNKNOWN(code),
        }
    }

    /// The numeric value of this classification.
    pub fn code(&self) -> (r: u32)
        ensures
            r == spec_code(*self),
    {
        match *self {
            Error::EPERM => 1,
            Error::ENOENT => 2,
            Error::ESRCH => 3,
            Error::EINTR => 4,
            Error::EIO => 5,
            Error::ENXIO => 6,
            Error::E2BIG => 7,
            Error::ENOEXEC => 8,
            Error::EBADF => 9,
            Error::ECHILD => 10,
            Error::EAGAIN => 11,
            Error::ENOMEM => 12,
            Error::EACCES => 13,
            Error::EFAULT => 14,
            Error::ENOTBLK => 15,
            Error::EBUSY => 16,
            Error::EEXIST => 17,
            Error::EXDEV => 18,
            Error::ENODEV => 19,
            Error::ENOTDIR => 20,
            Error::EISDIR => 21,
            Error::EINVAL => 22,
            Error::ENFILE => 23,
            Error::EMFILE => 24,
            Error::ENOTTY => 25,
            Error::ETXTBSY => 26,
            Error::EFBIG => 27,
            Error::ENOSPC => 28,
            Error::ESPIPE => 29,
            Error::EROFS => 30,
            Error::EMLINK => 31,
            Error::EPIPE => 32,
            Error::EDOM => 33,
            Error::ERANGE => 34,
            Error::EDEADLK => 35,
            Error::ENAMETOOLONG => 36,
            Error::ENOLCK => 37,
            Error::ENOSYS => 38,
            Error::ENOTEMPTY => 39,
            Error::ELOOP => 40,
            Error::ENOMSG => 42,
            Error::EIDRM => 43,
            Error::ECHRNG => 44,
            Error::EL2NSYNC => 45,
            Error::EL3HLT => 46,
            Error::EL3RST => 47,
            Error::ELNRNG => 48,
            Error::EUNATCH => 49,
            Error::ENOCSI => 50,
            Error::EL2HLT => 51,
            Error::EBADE => 52,
            Error::EBADR => 53,
            Error::EXFULL => 54,
            Error::ENOANO => 55,
            Error::EBADRQC => 56,
            Error::EBADSLT => 57,
            Error::EBFONT => 59,
            Error::ENOSTR => 60,
            Error::ENODATA => 61,
            Error::ETIME => 62,
            Error::ENOSR => 63,
            Error::ENONET => 64,
            Error::ENOPKG => 65,
            Error::EREMOTE => 66,
            Error::ENOLINK => 67,
            Error::EADV => 68,
            Error::ESRMNT => 69,
            Error::ECOMM => 70,
            Error::EPROTO => 71,
            Error::EMULTIHOP => 72,
            Error::EDOTDOT => 73,
            Error::EBADMSG => 74,
            Error::EOVERFLOW => 75,
            Error::ENOTUNIQ => 76,
            Error::EBADFD => 77,
            Error::EREMCHG => 78,
            Error::ELIBACC => 79,
            Error::ELIBBAD => 80,
            Error::ELIBSCN => 81,
            Error::ELIBMAX => 82,
            Error::ELIBEXEC => 83,
            Error::EILSEQ => 84,
            Error::ERESTART => 85,
            Error::ESTRPIPE => 86,
            Error::EUSERS => 87,
            Error::ENOTSOCK => 88,
            Error::EDESTADDRREQ => 89,
            Error::EMSGSIZE => 90,
            Error::EPROTOTYPE => 91,
            Error::ENOPROTOOPT => 92,
            Error::EPROTONOSUPPORT => 93,
            Error::ESOCKTNOSUPPORT => 94,
            Error::EOPNOTSUPP => 95,
            Error::EPFNOSUPPORT => 96,
            Error::EAFNOSUPPORT => 97,
            Error::EADDRINUSE => 98,
            Error::EADDRNOTAVAIL => 99,
            Error::ENETDOWN => 100,
            Error::ENETUNREACH => 101,
            Error::ENETRESET => 102,
            Error::ECONNABORTED => 103,
            Error::ECONNRESET => 104,
            Error::ENOBUFS => 105,
            Error::EISCONN => 106,
            Error::ENOTCONN => 107,
            Error::ESHUTDOWN => 108,
            Error::ETOOMANYREFS => 109,
            Error::ETIMEDOUT => 110,
            Error::ECONNREFUSED => 111,
            Error::EHOSTDOWN => 112,
            Error::EHOSTUNREACH => 113,
            Error::EALREADY => 114,
            Error::EINPROGRESS => 115,
            Error::ESTALE => 116,
            Error::EUCLEAN => 117,
            Error::ENOTNAM => 118,
            Error::ENAVAIL => 119,
            Error::EISNAM => 120,
            Error::EREMOTEIO => 121,
            Error::EDQUOT => 122,
            Error::ENOMEDIUM => 123,
            Error::EMEDIUMTYPE => 124,
            Error::ECANCELED => 125,
            Error::ENOKEY => 126,
            Error::EKEYEXPIRED => 127,
            Error::EKEYREVOKED => 128,
            Error::EKEYREJECTED => 129,
            Error::EOWNERDEAD => 130,
            Error::ENOTRECOVERABLE => 131,
            Error::ERFKILL => 132,
            Error::EHWPOISON => 133,
            Error::UNKNOWN(v) => v,
        }
    }

    /// The symbolic name, rendered distinctly for unrecognized values.
    pub fn name(&self) -> (r: &'static str)
        ensures
            r@ == spec_name(*self),
    {
        match *self {
            Error::EPERM => "EPERM",
            Error::ENOENT => "ENOENT",
            Error::ESRCH => "ESRCH",
            Error::EINTR => "EINTR",
            Error::EIO => "EIO",
            Error::ENXIO => "ENXIO",
            Error::E2BIG => "E2BIG",
            Error::ENOEXEC => "ENOEXEC",
            Error::EBADF => "EBADF",
            Error::ECHILD => "ECHILD",
            Error::EAGAIN => "EAGAIN",
            Error::ENOMEM => "ENOMEM",
            Error::EACCES => "EACCES",
            Error::EFAULT => "EFAULT",
            Error::ENOTBLK => "ENOTBLK",
            Error::EBUSY => "EBUSY",
            Error::EEXIST => "EEXIST",
            Error::EXDEV => "EXDEV",
            Error::ENODEV => "ENODEV",
            Error::ENOTDIR => "ENOTDIR",
            Error::EISDIR => "EISDIR",
            Error::EINVAL => "EINVAL",
            Error::ENFILE => "ENFILE",
            Error::EMFILE => "EMFILE",
            Error::ENOTTY => "ENOTTY",
            Error::ETXTBSY => "ETXTBSY",
            Error::EFBIG => "EFBIG",
            Error::ENOSPC => "ENOSPC",
            Error::ESPIPE => "ESPIPE",
            Error::EROFS => "EROFS",
            Error::EMLINK => "EMLINK",
            Error::EPIPE => "EPIPE",
            Error::EDOM => "EDOM",
            Error::ERANGE => "ERANGE",
            Error::EDEADLK => "EDEADLK",
            Error::ENAMETOOLONG => "ENAMETOOLONG",
            Error::ENOLCK => "ENOLCK",
            Error::ENOSYS => "ENOSYS",
            Error::ENOTEMPTY => "ENOTEMPTY",
            Error::ELOOP => "ELOOP",
            Error::ENOMSG => "ENOMSG",
            Error::EIDRM => "EIDRM",
            Error::ECHRNG => "ECHRNG",
            Error::EL2NSYNC => "EL2NSYNC",
            Error::EL3HLT => "EL3HLT",
            Error::EL3RST => "EL3RST",
            Error::ELNRNG => "ELNRNG",
            Error::EUNATCH => "EUNATCH",
            Error::ENOCSI => "ENOCSI",
            Error::EL2HLT => "EL2HLT",
            Error::EBADE => "EBADE",
            Error::EBADR => "EBADR",
            Error::EXFULL => "EXFULL",
            Error::ENOANO => "ENOANO",
            Error::EBADRQC => "EBADRQC",
            Error::EBADSLT => "EBADSLT",
            Error::EBFONT => "EBFONT",
            Error::ENOSTR => "ENOSTR",
            Error::ENODATA => "ENODATA",
            Error::ETIME => "ETIME",
            Error::ENOSR => "ENOSR",
            Error::ENONET => "ENONET",
            Error::ENOPKG => "ENOPKG",
            Error::EREMOTE => "EREMOTE",
            Error::ENOLINK => "ENOLINK",
            Error::EADV => "EADV",
            Error::ESRMNT => "ESRMNT",
            Error::ECOMM => "ECOMM",
            Error::EPROTO => "EPROTO",
            Error::EMULTIHOP => "EMULTIHOP",
            Error::EDOTDOT => "EDOTDOT",
            Error::EBADMSG => "EBADMSG",
            Error::EOVERFLOW => "EOVERFLOW",
            Error::ENOTUNIQ => "ENOTUNIQ",
            Error::EBADFD => "EBADFD",
            Error::EREMCHG => "EREMCHG",
            Error::ELIBACC => "ELIBACC",
            Error::ELIBBAD => "ELIBBAD",
            Error::ELIBSCN => "ELIBSCN",
            Error::ELIBMAX => "ELIBMAX",
            Error::ELIBEXEC => "ELIBEXEC",
            Error::EILSEQ => "EILSEQ",
            Error::ERESTART => "ERESTART",
            Error::ESTRPIPE => "ESTRPIPE",
            Error::EUSERS => "EUSERS",
            Error::ENOTSOCK => "ENOTSOCK",
            Error::EDESTADDRREQ => "EDESTADDRREQ",
            Error::EMSGSIZE => "EMSGSIZE",
            Error::EPROTOTYPE => "EPROTOTYPE",
            Error::ENOPROTOOPT => "ENOPROTOOPT",
            Error::EPROTONOSUPPORT => "EPROTONOSUPPORT",
            Error::ESOCKTNOSUPPORT => "ESOCKTNOSUPPORT",
            Error::EOPNOTSUPP => "EOPNOTSUPP",
            Error::EPFNOSUPPORT => "EPFNOSUPPORT",
            Error::EAFNOSUPPORT => "EAFNOSUPPORT",
            Error::EADDRINUSE => "EADDRINUSE",
            Error::EADDRNOTAVAIL => "EADDRNOTAVAIL",
            Error::ENETDOWN => "ENETDOWN",
            Error::ENETUNREACH => "ENETUNREACH",
            Error::ENETRESET => "ENETRESET",
            Error::ECONNABORTED => "ECONNABORTED",
            Error::ECONNRESET => "ECONNRESET",
            Error::ENOBUFS => "ENOBUFS",
            Error::EISCONN => "EISCONN",
            Error::ENOTCONN => "ENOTCONN",
            Error::ESHUTDOWN => "ESHUTDOWN",
            Error::ETOOMANYREFS => "ETOOMANYREFS",
            Error::ETIMEDOUT => "ETIMEDOUT",
            Error::ECONNREFUSED => "ECONNREFUSED",
            Error::EHOSTDOWN => "EHOSTDOWN",
            Error::EHOSTUNREACH => "EHOSTUNREACH",
            Error::EALREADY => "EALREADY",
            Error::EINPROGRESS => "EINPROGRESS",
            Error::ESTALE => "ESTALE",
            Error::EUCLEAN => "EUCLEAN",
            Error::ENOTNAM => "ENOTNAM",
            Error::ENAVAIL => "ENAVAIL",
            Error::EISNAM => "EISNAM",
            Error::EREMOTEIO => "EREMOTEIO",
            Error::EDQUOT => "EDQUOT",
            Error::ENOMEDIUM => "ENOMEDIUM",
            Error::EMEDIUMTYPE => "EMEDIUMTYPE",
            Error::ECANCELED => "ECANCELED",
            Error::ENOKEY => "ENOKEY",
            Error::EKEYEXPIRED => "EKEYEXPIRED",
            Error::EKEYREVOKED => "EKEYREVOKED",
            Error::EKEYREJECTED => "EKEYREJECTED",
            Error::EOWNERDEAD => "EOWNERDEAD",
            Error::ENOTRECOVERABLE => "ENOTRECOVERABLE",
            Error::ERFKILL => "ERFKILL",
            Error::EHWPOISON => "EHWPOISON",
            Error::UNKNOWN(_) => "UNKNOWN",
        }
    }

    /// The one-line human description.
    pub fn message(&self) -> (r: &'static str)
        ensures
            r@ == spec_message(*self),
    {
        match *self {
            Error::EPERM => "Operation not permitted",
            Error::ENOENT => "No such file or directory",
            Error::ESRCH => "No such process",
            Error::EINTR => "Interrupted system call",
            Error::EIO => "I/O error",
            Error::ENXIO => "No such device or address",
            Error::E2BIG => "Argument list too long",
            Error::ENOEXEC => "Exec format error",
            Error::EBADF => "Bad file number",
            Error::ECHILD => "No child processes",
            Error::EAGAIN => "Try again",
            Error::ENOMEM => "Out of memory",
            Error::EACCES => "Permission denied",
            Error::EFAULT => "Bad address",
            Error::ENOTBLK => "Block device required",
            Error::EBUSY => "Device or resource busy",
            Error::EEXIST => "File exists",
            Error::EXDEV => "Cross-device link",
            Error::ENODEV => "No such device",
            Error::ENOTDIR => "Not a directory",
            Error::EISDIR => "Is a directory",
            Error::EINVAL => "Invalid argument",
            Error::ENFILE => "File table overflow",
            Error::EMFILE => "Too many open files",
            Error::ENOTTY => "Not a typewriter",
            Error::ETXTBSY => "Text file busy",
            Error::EFBIG => "File too large",
            Error::ENOSPC => "No space left on device",
            Error::ESPIPE => "Illegal seek",
            Error::EROFS => "Read-only file system",
            Error::EMLINK => "Too many links",
            Error::EPIPE => "Broken pipe",
            Error::EDOM => "Math argument out of domain of func",
            Error::ERANGE => "Math result not representable",
            Error::EDEADLK => "Resource deadlock would occur",
            Error::ENAMETOOLONG => "File name too long",
            Error::ENOLCK => "No record locks available",
            Error::ENOSYS => "Invalid system call number",
            Error::ENOTEMPTY => "Directory not empty",
            Error::ELOOP => "Too many symbolic links encountered",
            Error::ENOMSG => "No message of desired type",
            Error::EIDRM => "Identifier removed",
            Error::ECHRNG => "Channel number out of range",
            Error::EL2NSYNC => "Level 2 not synchronized",
            Error::EL3HLT => "Level 3 halted",
            Error::EL3RST => "Level 3 reset",
            Error::ELNRNG => "Link number out of range",
            Error::EUNATCH => "Protocol driver not attached",
            Error::ENOCSI => "No CSI structure available",
            Error::EL2HLT => "Level 2 halted",
            Error::EBADE => "Invalid exchange",
            Error::EBADR => "Invalid request descriptor",
            Error::EXFULL => "Exchange full",
            Error::ENOANO => "No anode",
            Error::EBADRQC => "Invalid request code",
            Error::EBADSLT => "Invalid slot",
            Error::EBFONT => "Bad font file format",
            Error::ENOSTR => "Device not a stream",
            Error::ENODATA => "No data available",
            Error::ETIME => "Timer expired",
            Error::ENOSR => "Out of streams resources",
            Error::ENONET => "Machine is not on the network",
            Error::ENOPKG => "Package not installed",
            Error::EREMOTE => "Object is remote",
            Error::ENOLINK => "Link has been severed",
            Error::EADV => "Advertise error",
            Error::ESRMNT => "Srmount error",
            Error::ECOMM => "Communication error on send",
            Error::EPROTO => "Protocol error",
            Error::EMULTIHOP => "Multihop attempted",
            Error::EDOTDOT => "RFS specific error",
            Error::EBADMSG => "Not a data message",
            Error::EOVERFLOW => "Value too large for defined data type",
            Error::ENOTUNIQ => "Name not unique on network",
            Error::EBADFD => "File descriptor in bad state",
            Error::EREMCHG => "Remote address changed",
            Error::ELIBACC => "Can not access a needed shared library",
            Error::ELIBBAD => "Accessing a corrupted shared library",
            Error::ELIBSCN => ".lib section in a.out corrupted",
            Error::ELIBMAX => "Attempting to link in too many shared libraries",
            Error::ELIBEXEC => "Cannot exec a shared library directly",
            Error::EILSEQ => "Illegal byte sequence",
            Error::ERESTART => "Interrupted system call should be restarted",
            Error::ESTRPIPE => "Streams pipe error",
            Error::EUSERS => "Too many users",
            Error::ENOTSOCK => "Socket operation on non-socket",
            Error::EDESTADDRREQ => "Destination address required",
            Error::EMSGSIZE => "Message too long",
            Error::EPROTOTYPE => "Protocol wrong type for socket",
            Error::ENOPROTOOPT => "Protocol not available",
            Error::EPROTONOSUPPORT => "Protocol not supported",
            Error::ESOCKTNOSUPPORT => "Socket type not supported",
            Error::EOPNOTSUPP => "Operation not supported on transport endpoint",
            Error::EPFNOSUPPORT => "Protocol family not supported",
            Error::EAFNOSUPPORT => "Address family not supported by protocol",
            Error::EADDRINUSE => "Address already in use",
            Error::EADDRNOTAVAIL => "Cannot assign requested address",
            Error::ENETDOWN => "Network is down",
            Error::ENETUNREACH => "Network is unreachable",
            Error::ENETRESET => "Network dropped connection because of reset",
            Error::ECONNABORTED => "Software caused connection abort",
            Error::ECONNRESET => "Connection reset by peer",
            Error::ENOBUFS => "No buffer space available",
            Error::EISCONN => "Transport endpoint is already connected",
            Error::ENOTCONN => "Transport endpoint is not connected",
            Error::ESHUTDOWN => "Cannot send after transport endpoint shutdown",
            Error::ETOOMANYREFS => "Too many references: cannot splice",
            Error::ETIMEDOUT => "Connection timed out",
            Error::ECONNREFUSED => "Connection refused",
            Error::EHOSTDOWN => "Host is down",
            Error::EHOSTUNREACH => "No route to host",
            Error::EALREADY => "Operation already in progress",
            Error::EINPROGRESS => "Operation now in progress",
            Error::ESTALE => "Stale file handle",
            Error::EUCLEAN => "Structure needs cleaning",
            Error::ENOTNAM => "Not a XENIX named type file",
            Error::ENAVAIL => "No XENIX semaphores available",
            Error::EISNAM => "Is a named type file",
            Error::EREMOTEIO => "Remote I/O error",
            Error::EDQUOT => "Quota exceeded",
            Error::ENOMEDIUM => "No medium found",
            Error::EMEDIUMTYPE => "Wrong medium type",
            Error::ECANCELED => "Operation Canceled",
            Error::ENOKEY => "Required key not available",
            Error::EKEYEXPIRED => "Key has expired",
            Error::EKEYREVOKED => "Key has been revoked",
            Error::EKEYREJECTED => "Key was rejected by service",
            Error::EOWNERDEAD => "Owner died",
            Error::ENOTRECOVERABLE => "State not recoverable",
            Error::ERFKILL => "Operation not possible due to RF-kill",
            Error::EHWPOISON => "Memory page has hardware error",
            Error::UNKNOWN(_) => "Unknown enumeration value.",
        }
    }
}

/// The table is total over its defined range: every defined code maps to a
/// named entry that carries that exact code back, and every other value maps
/// to the distinct `UNKNOWN` rendering carrying the raw number.
pub proof fn lemma_error_table_total(code: u32)
    ensures
        is_defined_code(code) ==> !(spec_from_code(code) is UNKNOWN),
        is_defined_code(code) ==> spec_code(spec_from_code(code)) == code,
        !is_defined_code(code) ==> spec_from_code(code) == Error::UNKNOWN(code),
{
}

/// Distinct defined codes classify to distinct entries.
pub proof fn lemma_error_codes_distinct(a: u32, b: u32)
    requires
        is_defined_code(a),
        is_defined_code(b),
        a != b,
    ensures
        spec_from_code(a) != spec_from_code(b),
{
    lemma_error_table_total(a);
    lemma_error_table_total(b);
}

/// Every defined entry has a non-empty symbolic name and description.
#[verifier::rlimit(60)]
pub proof fn lemma_error_entries_nonempty(code: u32)
    requires
        is_defined_code(code),
    ensures
        spec_name(spec_from_code(code)).len() > 0,
        spec_message(spec_from_code(code)).len() > 0,
{
    reveal_strlit("EPERM");
    reveal_strlit("Operation not permitted");
    reveal_strlit("ENOENT");
    reveal_strlit("No such file or directory");
    reveal_strlit("ESRCH");
    reveal_strlit("No such process");
    reveal_strlit("EINTR");
    reveal_strlit("Interrupted system call");
    reveal_strlit("EIO");
    reveal_strlit("I/O error");
    reveal_strlit("ENXIO");
    reveal_strlit("No such device or address");
    reveal_strlit("E2BIG");
    reveal_strlit("Argument list too long");
    reveal_strlit("ENOEXEC");
    reveal_strlit("Exec format error");
    reveal_strlit("EBADF");
    reveal_strlit("Bad file number");
    reveal_strlit("ECHILD");
    reveal_strlit("No child processes");
    reveal_strlit("EAGAIN");
    reveal_strlit("Try again");
    reveal_strlit("ENOMEM");
    reveal_strlit("Out of memory");
    reveal_strlit("EACCES");
    reveal_strlit("Permission denied");
    reveal_strlit("EFAULT");
    reveal_strlit("Bad address");
    reveal_strlit("ENOTBLK");
    reveal_strlit("Block device required");
    reveal_strlit("EBUSY");
    reveal_strlit("Device or resource busy");
    reveal_strlit("EEXIST");
    reveal_strlit("File exists");
    reveal_strlit("EXDEV");
    reveal_strlit("Cross-device link");
    reveal_strlit("ENODEV");
    reveal_strlit("No such device");
    reveal_strlit("ENOTDIR");
    reveal_strlit("Not a directory");
    reveal_strlit("EISDIR");
    reveal_strlit("Is a directory");
    reveal_strlit("EINVAL");
    reveal_strlit("Invalid argument");
    reveal_strlit("ENFILE");
    reveal_strlit("File table overflow");
    reveal_strlit("EMFILE");
    reveal_strlit("Too many open files");
    reveal_strlit("ENOTTY");
    reveal_strlit("Not a typewriter");
    reveal_strlit("ETXTBSY");
    reveal_strlit("Text file busy");
    reveal_strlit("EFBIG");
    reveal_strlit("File too large");
    reveal_strlit("ENOSPC");
    reveal_strlit("No space left on device");
    reveal_strlit("ESPIPE");
    reveal_strlit("Illegal seek");
    reveal_strlit("EROFS");
    reveal_strlit("Read-only file system");
    reveal_strlit("EMLINK");
    reveal_strlit("Too many links");
    reveal_strlit("EPIPE");
    reveal_strlit("Broken pipe");
    reveal_strlit("EDOM");
    reveal_strlit("Math argument out of domain of func");
    reveal_strlit("ERANGE");
    reveal_strlit("Math result not representable");
    reveal_strlit("EDEADLK");
    reveal_strlit("Resource deadlock would occur");
    reveal_strlit("ENAMETOOLONG");
    reveal_strlit("File name too long");
    reveal_strlit("ENOLCK");
    reveal_strlit("No record locks available");
    reveal_strlit("ENOSYS");
    reveal_strlit("Invalid system call number");
    reveal_strlit("ENOTEMPTY");
    reveal_strlit("Directory not empty");
    reveal_strlit("ELOOP");
    reveal_strlit("Too many symbolic links encountered");
    reveal_strlit("ENOMSG");
    reveal_strlit("No message of desired type");
    reveal_strlit("EIDRM");
    reveal_strlit("Identifier removed");
    reveal_strlit("ECHRNG");
    reveal_strlit("Channel number out of range");
    reveal_strlit("EL2NSYNC");
    reveal_strlit("Level 2 not synchronized");
    reveal_strlit("EL3HLT");
    reveal_strlit("Level 3 halted");
    reveal_strlit("EL3RST");
    reveal_strlit("Level 3 reset");
    reveal_strlit("ELNRNG");
    reveal_strlit("Link number out of range");
    reveal_strlit("EUNATCH");
    reveal_strlit("Protocol driver not attached");
    reveal_strlit("ENOCSI");
    reveal_strlit("No CSI structure available");
    reveal_strlit("EL2HLT");
    reveal_strlit("Level 2 halted");
    reveal_strlit("EBADE");
    reveal_strlit("Invalid exchange");
    reveal_strlit("EBADR");
    reveal_strlit("Invalid request descriptor");
    reveal_strlit("EXFULL");
    reveal_strlit("Exchange full");
    reveal_strlit("ENOANO");
    reveal_strlit("No anode");
    reveal_strlit("EBADRQC");
    reveal_strlit("Invalid request code");
    reveal_strlit("EBADSLT");
    reveal_strlit("Invalid slot");
    reveal_strlit("EBFONT");
    reveal_strlit("Bad font file format");
    reveal_strlit("ENOSTR");
    reveal_strlit("Device not a stream");
    reveal_strlit("ENODATA");
    reveal_strlit("No data available");
    reveal_strlit("ETIME");
    reveal_strlit("Timer expired");
    reveal_strlit("ENOSR");
    reveal_strlit("Out of streams resources");
    reveal_strlit("ENONET");
    reveal_strlit("Machine is not on the network");
    reveal_strlit("ENOPKG");
    reveal_strlit("Package not installed");
    reveal_strlit("EREMOTE");
    reveal_strlit("Object is remote");
    reveal_strlit("ENOLINK");
    reveal_strlit("Link has been severed");
    reveal_strlit("EADV");
    reveal_strlit("Advertise error");
    reveal_strlit("ESRMNT");
    reveal_strlit("Srmount error");
    reveal_strlit("ECOMM");
    reveal_strlit("Communication error on send");
    reveal_strlit("EPROTO");
    reveal_strlit("Protocol error");
    reveal_strlit("EMULTIHOP");
    reveal_strlit("Multihop attempted");
    reveal_strlit("EDOTDOT");
    reveal_strlit("RFS specific error");
    reveal_strlit("EBADMSG");
    reveal_strlit("Not a data message");
    reveal_strlit("EOVERFLOW");
    reveal_strlit("Value too large for defined data type");
    reveal_strlit("ENOTUNIQ");
    reveal_strlit("Name not unique on network");
    reveal_strlit("EBADFD");
    reveal_strlit("File descriptor in bad state");
    reveal_strlit("EREMCHG");
    reveal_strlit("Remote address changed");
    reveal_strlit("ELIBACC");
    reveal_strlit("Can not access a needed shared library");
    reveal_strlit("ELIBBAD");
    reveal_strlit("Accessing a corrupted shared library");
    reveal_strlit("ELIBSCN");
    reveal_strlit(".lib section in a.out corrupted");
    reveal_strlit("ELIBMAX");
    reveal_strlit("Attempting to link in too many shared libraries");
    reveal_strlit("ELIBEXEC");
    reveal_strlit("Cannot exec a shared library directly");
    reveal_strlit("EILSEQ");
    reveal_strlit("Illegal byte sequence");
    reveal_strlit("ERESTART");
    reveal_strlit("Interrupted system call should be restarted");
    reveal_strlit("ESTRPIPE");
    reveal_strlit("Streams pipe error");
    reveal_strlit("EUSERS");
    reveal_strlit("Too many users");
    reveal_strlit("ENOTSOCK");
    reveal_strlit("Socket operation on non-socket");
    reveal_strlit("EDESTADDRREQ");
    reveal_strlit("Destination address required");
    reveal_strlit("EMSGSIZE");
    reveal_strlit("Message too long");
    reveal_strlit("EPROTOTYPE");
    reveal_strlit("Protocol wrong type for socket");
    reveal_strlit("ENOPROTOOPT");
    reveal_strlit("Protocol not available");
    reveal_strlit("EPROTONOSUPPORT");
    reveal_strlit("Protocol not supported");
    reveal_strlit("ESOCKTNOSUPPORT");
    reveal_strlit("Socket type not supported");
    reveal_strlit("EOPNOTSUPP");
    reveal_strlit("Operation not supported on transport endpoint");
    reveal_strlit("EPFNOSUPPORT");
    reveal_strlit("Protocol family not supported");
    reveal_strlit("EAFNOSUPPORT");
    reveal_strlit("Address family not supported by protocol");
    reveal_strlit("EADDRINUSE");
    reveal_strlit("Address already in use");
    reveal_strlit("EADDRNOTAVAIL");
    reveal_strlit("Cannot assign requested address");
    reveal_strlit("ENETDOWN");
    reveal_strlit("Network is down");
    reveal_strlit("ENETUNREACH");
    reveal_strlit("Network is unreachable");
    reveal_strlit("ENETRESET");
    reveal_strlit("Network dropped connection because of reset");
    reveal_strlit("ECONNABORTED");
    reveal_strlit("Software caused connection abort");
    reveal_strlit("ECONNRESET");
    reveal_strlit("Connection reset by peer");
    reveal_strlit("ENOBUFS");
    reveal_strlit("No buffer space available");
    reveal_strlit("EISCONN");
    reveal_strlit("Transport endpoint is already connected");
    reveal_strlit("ENOTCONN");
    reveal_strlit("Transport endpoint is not connected");
    reveal_strlit("ESHUTDOWN");
    reveal_strlit("Cannot send after transport endpoint shutdown");
    reveal_strlit("ETOOMANYREFS");
    reveal_strlit("Too many references: cannot splice");
    reveal_strlit("ETIMEDOUT");
    reveal_strlit("Connection timed out");
    reveal_strlit("ECONNREFUSED");
    reveal_strlit("Connection refused");
    reveal_strlit("EHOSTDOWN");
    reveal_strlit("Host is down");
    reveal_strlit("EHOSTUNREACH");
    reveal_strlit("No route to host");
    reveal_strlit("EALREADY");
    reveal_strlit("Operation already in progress");
    reveal_strlit("EINPROGRESS");
    reveal_strlit("Operation now in progress");
    reveal_strlit("ESTALE");
    reveal_strlit("Stale file handle");
    reveal_strlit("EUCLEAN");
    reveal_strlit("Structure needs cleaning");
    reveal_strlit("ENOTNAM");
    reveal_strlit("Not a XENIX named type file");
    reveal_strlit("ENAVAIL");
    reveal_strlit("No XENIX semaphores available");
    reveal_strlit("EISNAM");
    reveal_strlit("Is a named type file");
    reveal_strlit("EREMOTEIO");
    reveal_strlit("Remote I/O error");
    reveal_strlit("EDQUOT");
    reveal_strlit("Quota exceeded");
    reveal_strlit("ENOMEDIUM");
    reveal_strlit("No medium found");
    reveal_strlit("EMEDIUMTYPE");
    reveal_strlit("Wrong medium type");
    reveal_strlit("ECANCELED");
    reveal_strlit("Operation Canceled");
    reveal_strlit("ENOKEY");
    reveal_strlit("Required key not available");
    reveal_strlit("EKEYEXPIRED");
    reveal_strlit("Key has expired");
    reveal_strlit("EKEYREVOKED");
    reveal_strlit("Key has been revoked");
    reveal_strlit("EKEYREJECTED");
    reveal_strlit("Key was rejected by service");
    reveal_strlit("EOWNERDEAD");
    reveal_strlit("Owner died");
    reveal_strlit("ENOTRECOVERABLE");
    reveal_strlit("State not recoverable");
    reveal_strlit("ERFKILL");
    reveal_strlit("Operation not possible due to RF-kill");
    reveal_strlit("EHWPOISON");
    reveal_strlit("Memory page has hardware error");
}

/// The code a negative dispatch result classifies to: the negated value,
/// reduced to the 32-bit code space.
pub open spec fn spec_neg_code(maybe: isize) -> u32 {
    (((-(maybe as int)) % 0x1_0000_0000) as u32)
}

/// The low 32 bits of a non-negative dispatch result.
pub open spec fn spec_low_u32(maybe: isize) -> u32 {
    (((maybe as int) % 0x1_0000_0000) as u32)
}

impl Error {
    /// Classify a raw signed dispatch result that carries no payload.
    pub fn maybe(maybe: isize) -> (r: Result<(), Error>)
        ensures
            maybe >= 0 ==> r == Ok::<(), Error>(()),
            maybe < 0 ==> r == Err::<(), Error>(spec_from_code(spec_neg_code(maybe))),
    {
        if maybe < 0 {
            Err(Error::from_code(neg_code(maybe)))
        } else {
            Ok(())
        }
    }

    /// Classify a raw signed dispatch result whose payload is a count.
    pub fn maybe_usize(maybe: isize) -> (r: Result<usize, Error>)
        ensures
            maybe >= 0 ==> r == Ok::<usize, Error>(maybe as usize),
            maybe < 0 ==> r == Err::<usize, Error>(spec_from_code(spec_neg_code(maybe))),
    {
        if maybe < 0 {
            Err(Error::from_code(neg_code(maybe)))
        } else {
            Ok(maybe as usize)
        }
    }

    /// Classify a raw signed dispatch result whose payload is an address,
    /// returned here as a plain machine word.
    pub fn maybe_ptr(maybe: isize) -> (r: Result<usize, Error>)
        ensures
            maybe >= 0 ==> r == Ok::<usize, Error>(maybe as usize),
            maybe < 0 ==> r == Err::<usize, Error>(spec_from_code(spec_neg_code(maybe))),
    {
        if maybe < 0 {
            Err(Error::from_code(neg_code(maybe)))
        } else {
            Ok(maybe as usize)
        }
    }

    /// Classify a raw signed dispatch result whose payload is a 32-bit value
    /// (a descriptor number or flag word); the payload is the result's low
    /// 32 bits.
    pub fn maybe_u32(maybe: isize) -> (r: Result<u32, Error>)
        ensures
            maybe >= 0 ==> r == Ok::<u32, Error>(spec_low_u32(maybe)),
            maybe < 0 ==> r == Err::<u32, Error>(spec_from_code(spec_neg_code(maybe))),
    {
        if maybe < 0 {
            Err(Error::from_code(neg_code(maybe)))
        } else {
            let wide: u64 = maybe as u64;
            let low: u64 = wide % 0x1_0000_0000;
            assert(low == (maybe as int) % 0x1_0000_0000);
            Ok(low as u32)
        }
    }
}

/// The negated code of a negative dispatch result, computed in a wider type
/// so that the most negative machine word cannot overflow the negation.
fn neg_code(maybe: isize) -> (r: u32)
    requires
        maybe < 0,
    ensures
        r == spec_neg_code(maybe),
{
    let wide: i128 = -(maybe as i128);
    let low: i128 = wide % 0x1_0000_0000;
    low as u32
}

} // verus!
