use vstd::prelude::*;

verus! {

/// An operating system that the shell can run on.
#[derive(Clone, Copy, Debug, PartialEq, Eq, Structural)]
pub enum Platform {
    Linux,
    Macos,
    Ios,
    Freebsd,
    Dragonfly,
    Netbsd,
    Openbsd,
    Solaris,
    Android,
    Windows,
}

/// The identifier by which each platform is reported.
pub open spec fn os_name(p: Platform) -> Seq<char> {
    match p {
        Platform::Linux => seq!['l', 'i', 'n', 'u', 'x'],
        Platform::Macos => seq!['m', 'a', 'c', 'o', 's'],
        Platform::Ios => seq!['i', 'o', 's'],
        Platform::Freebsd => seq!['f', 'r', 'e', 'e', 'b', 's', 'd'],
        Platform::Dragonfly => seq!['d', 'r', 'a', 'g', 'o', 'n', 'f', 'l', 'y'],
        Platform::Netbsd => seq!['n', 'e', 't', 'b', 's', 'd'],
        Platform::Openbsd => seq!['o', 'p', 'e', 'n', 'b', 's', 'd'],
        Platform::Solaris => seq!['s', 'o', 'l', 'a', 'r', 'i', 's'],
        Platform::Android => seq!['a', 'n', 'd', 'r', 'o', 'i', 'd'],
        Platform::Windows => seq!['w', 'i', 'n', 'd', 'o', 'w', 's'],
    }
}

/// The platform whose identifier is `s`, if there is one.
pub open spec fn platform_named(s: Seq<char>) -> Option<Platform> {
    if s == os_name(Platform::Linux) {
        Some(Platform::Linux)
    } else if s == os_name(Platform::Macos) {
        Some(Platform::Macos)
    } else if s == os_name(Platform::Ios) {
        Some(Platform::Ios)
    } else if s == os_name(Platform::Freebsd) {
        Some(Platform::Freebsd)
    } else if s == os_name(Platform::Dragonfly) {
        Some(Platform::Dragonfly)
    } else if s == os_name(Platform::Netbsd) {
        Some(Platform::Netbsd)
    } else if s == os_name(Platform::Openbsd) {
        Some(Platform::Openbsd)
    } else if s == os_name(Platform::Solaris) {
        Some(Platform::Solaris)
    } else if s == os_name(Platform::Android) {
        Some(Platform::Android)
    } else if s == os_name(Platform::Windows) {
        Some(Platform::Windows)
    } else {
        None
    }
}

/// The identifiers of all supported platforms.
pub open spec fn is_supported_os(s: Seq<char>) -> bool {
    exists|p: Platform| os_name(p) == s
}

/// Every platform identifier is non-empty and names one platform only.
pub proof fn lemma_os_names(p: Platform, q: Platform)
    ensures
        os_name(p).len() > 0,
        is_supported_os(os_name(p)),
        os_name(p) == os_name(q) ==> p == q,
{
    if os_name(p) == os_name(q) {
        assert(os_name(p)[0] == os_name(q)[0]);
    }
}

/// Each platform is the one that its identifier names.
pub proof fn lemma_platform_named(p: Platform)
    ensures
        platform_named(os_name(p)) == Some(p),
{
    assert forall|q: Platform| os_name(q) == os_name(p) implies q == p by {
        lemma_os_names(q, p);
    }
}

/// Every platform, in a fixed order.
fn all_platforms() -> (r: Vec<Platform>)
    ensures
        forall|p: Platform| #[trigger] r@.contains(p),
{
    let r = vec![
        Platform::Linux,
        Platform::Macos,
        Platform::Ios,
        Platform::Freebsd,
        Platform::Dragonfly,
        Platform::Netbsd,
        Platform::Openbsd,
        Platform::Solaris,
        Platform::Android,
        Platform::Windows,
    ];
    assert forall|p: Platform| #[trigger] r@.contains(p) by {
        match p {
            Platform::Linux => assert(r@[0] == p),
            Platform::Macos => assert(r@[1] == p),
            Platform::Ios => assert(r@[2] == p),
            Platform::Freebsd => assert(r@[3] == p),
            Platform::Dragonfly => assert(r@[4] == p),
            Platform::Netbsd => assert(r@[5] == p),
            Platform::Openbsd => assert(r@[6] == p),
            Platform::Solaris => assert(r@[7] == p),
            Platform::Android => assert(r@[8] == p),
            Platform::Windows => assert(r@[9] == p),
        }
    }
    r
}

impl Platform {
    /// The identifier by which this platform is reported.
    pub fn identifier(&self) -> (r: String)
        ensures
            r@ == os_name(*self),
    {
        let s: &'static str = match self {
            Platform::Linux => "linux",
            Platform::Macos => "macos",
            Platform::Ios => "ios",
            Platform::Freebsd => "freebsd",
            Platform::Dragonfly => "dragonfly",
            Platform::Netbsd => "netbsd",
            Platform::Openbsd => "openbsd",
            Platform::Solaris => "solaris",
            Platform::Android => "android",
            Platform::Windows => "windows",
        };
        proof {
            reveal_strlit("linux");
            reveal_strlit("macos");
            reveal_strlit("ios");
            reveal_strlit("freebsd");
            reveal_strlit("dragonfly");
            reveal_strlit("netbsd");
            reveal_strlit("openbsd");
            reveal_strlit("solaris");
            reveal_strlit("android");
            reveal_strlit("windows");
        }
        let r = s.to_owned();
        assert(r@ =~= os_name(*self));
        r
    }

    /// The platform that an identifier names, if it names one.
    pub fn from_identifier(s: &str) -> (r: Option<Platform>)
        ensures
            r == platform_named(s@),
            match r {
                Some(p) => os_name(p) == s@,
                None => !is_supported_os(s@),
            },
    {
        let all = all_platforms();
        let given = s.to_owned();
        let mut i: usize = 0;
        while i < all.len()
            invariant
                i <= all@.len(),
                given@ == s@,
                forall|p: Platform| #[trigger] all@.contains(p),
                forall|k: int| 0 <= k < i ==> os_name(#[trigger] all@[k]) != s@,
            decreases all@.len() - i,
        {
            let name = all[i].identifier();
            if name == given {
                proof {
                    lemma_platform_named(all@[i as int]);
                }
                return Some(all[i]);
            }
            i = i + 1;
        }
        proof {
            assert forall|p: Platform| os_name(p) != s@ by {
                assert(all@.contains(p));
            }
        }
        None
    }
}

/// Reports the identifier of the platform the shell runs on.
pub fn platform(host: Platform) -> (r: String)
    ensures
        r@ == os_name(host),
        r@.len() > 0,
        is_supported_os(r@),
{
    proof {
        lemma_os_names(host, host);
    }
    host.identifier()
}

} // verus!
