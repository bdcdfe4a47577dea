//! Where the desktop client keeps its tokens.

use vstd::prelude::*;

use crate::error::{plain_error, AuthError, ErrorKind, ErrorV};

verus! {

#[derive(Clone, Copy, PartialEq, Eq, Structural, Debug)]
pub enum Platform {
    MacOs,
    Windows,
    Other,
}

/// The directory that a path starts from.
#[derive(Clone, Copy, PartialEq, Eq, Structural, Debug)]
pub enum Base {
    Home,
    Config,
}

/// Where the token store is.
#[derive(Debug)]
pub struct StorePath {
    pub base: Base,
    pub path: String,
}

/// Where the token store is on macOS, from the home directory.
pub const MAC_STORE: &'static str = "Library/Application Support/kimi-desktop/bridge-store/token-store.json";

/// Where the token store is on Windows, from the directory for settings.
pub const WINDOWS_STORE: &'static str = "kimi-desktop/bridge-store/token-store.json";

/// Where the token store may be instead on Windows.
pub const OTHER_WINDOWS_STORE: &'static str = "Kimi/bridge-store/token-store.json";

pub open spec fn path_outcome(r: Result<StorePath, AuthError>) -> Result<(Base, Seq<char>), ErrorV> {
    match r {
        Ok(p) => Ok((p.base, p.path@)),
        Err(e) => Err(e@),
    }
}

/// Where the token store is. On Windows it is in the first of two places that holds a store,
/// in the first one where neither does.
pub open spec fn store_place(platform: Platform, first: bool, second: bool) -> Result<
    (Base, Seq<char>),
    ErrorV,
> {
    match platform {
        Platform::MacOs => Ok((Base::Home, MAC_STORE@)),
        Platform::Windows => Ok(
            (
                Base::Config,
                if !first && second {
                    OTHER_WINDOWS_STORE@
                } else {
                    WINDOWS_STORE@
                },
            ),
        ),
        Platform::Other => Err(plain_error(ErrorKind::Platform)),
    }
}

/// Finds where the token store is. `first` and `second` say whether there is a file at
/// `WINDOWS_STORE` and at `OTHER_WINDOWS_STORE`.
pub fn token_store_path(platform: Platform, first: bool, second: bool) -> (r: Result<
    StorePath,
    AuthError,
>)
    ensures
        path_outcome(r) == store_place(platform, first, second),
{
    match platform {
        Platform::MacOs => Ok(StorePath { base: Base::Home, path: MAC_STORE.to_owned() }),
        Platform::Windows => Ok(
            StorePath {
                base: Base::Config,
                path: if !first && second {
                    OTHER_WINDOWS_STORE.to_owned()
                } else {
                    WINDOWS_STORE.to_owned()
                },
            },
        ),
        Platform::Other => Err(AuthError::new(ErrorKind::Platform)),
    }
}

/// How the files are encrypted.
#[derive(Clone, Copy, PartialEq, Eq, Structural, Debug)]
pub enum Encryption {
    /// With a key from the keychain.
    Keychain,
    /// With DPAPI, or with a key that DPAPI wraps.
    Dpapi,
}

/// How the files are encrypted on a platform; on others than macOS and Windows they are neither
/// read nor written.
pub fn encryption_on(platform: Platform) -> (r: Result<Encryption, AuthError>)
    ensures
        match r {
            Ok(e) => (platform == Platform::MacOs && e == Encryption::Keychain) || (platform
                == Platform::Windows && e == Encryption::Dpapi),
            Err(e) => platform == Platform::Other && e@ == plain_error(ErrorKind::Platform),
        },
{
    match platform {
        Platform::MacOs => Ok(Encryption::Keychain),
        Platform::Windows => Ok(Encryption::Dpapi),
        Platform::Other => Err(AuthError::new(ErrorKind::Platform)),
    }
}

/// The token store of the desktop client is found from the home directory on macOS and from the
/// directory for settings on Windows, there in the second place only where it is there and not in
/// the first; no other platform has one.
pub proof fn law_where_the_store_is(first: bool, second: bool)
    ensures
        store_place(Platform::MacOs, first, second) == Ok::<(Base, Seq<char>), ErrorV>(
            (
                Base::Home,
                "Library/Application Support/kimi-desktop/bridge-store/token-store.json"@,
            ),
        ),
        !(second && !first) ==> store_place(Platform::Windows, first, second) == Ok::<
            (Base, Seq<char>),
            ErrorV,
        >((Base::Config, "kimi-desktop/bridge-store/token-store.json"@)),
        second && !first ==> store_place(Platform::Windows, first, second) == Ok::<
            (Base, Seq<char>),
            ErrorV,
        >((Base::Config, "Kimi/bridge-store/token-store.json"@)),
        store_place(Platform::Other, first, second) == Err::<(Base, Seq<char>), ErrorV>(
            plain_error(ErrorKind::Platform),
        ),
{
}

} // verus!
