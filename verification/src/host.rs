//! One remote machine targeted for build work: its name, connection
//! parameters and build directory, and the derived ssh argument lists and
//! git URLs that every other component builds its invocations from.

use vstd::prelude::*;

verus! {

/// Mathematical image of a [`Host`]: every string field as a sequence of
/// characters.
pub struct HostSpec {
    pub name: Seq<char>,
    pub user: Seq<char>,
    pub build_dir: Seq<char>,
    pub host: Option<Seq<char>>,
    pub identity_file: Option<Seq<char>>,
}

impl HostSpec {
    /// The address actually connected to: the explicit `host` override when
    /// present, the host's name otherwise.
    pub open spec fn addr(self) -> Seq<char> {
        match self.host {
            Some(h) => h,
            None => self.name,
        }
    }

    /// `user@addr`, the ssh destination.
    pub open spec fn destination(self) -> Seq<char> {
        self.user + "@"@ + self.addr()
    }

    /// The argument list handed to `ssh` to run `cmd` on this host.
    pub open spec fn ssh_command(self, cmd: Seq<char>) -> Seq<Seq<char>> {
        let auth = seq!["-o"@, "PreferredAuthentications=publickey"@];
        let identity = match self.identity_file {
            Some(f) => seq!["-i"@, f],
            None => Seq::<Seq<char>>::empty(),
        };
        auth + identity + seq![self.destination(), "-C"@, cmd]
    }

    /// The `GIT_SSH_COMMAND` value used when pushing to this host, when an
    /// identity file is configured.
    pub open spec fn git_ssh_command(self) -> Option<Seq<char>> {
        match self.identity_file {
            Some(f) => Some("ssh -i \""@ + f + "\""@),
            None => None,
        }
    }

    /// `user@addr:build_dir`, the git push destination.
    pub open spec fn git_ssh_url(self) -> Seq<char> {
        self.destination() + ":"@ + self.build_dir
    }
}

/// Connection parameters for one host. Immutable once constructed; every
/// concurrent execution unit works from its own copy.
#[derive(Debug)]
pub struct Host {
    /// Unique identifier of the host; also the default address.
    pub name: String,
    /// Remote user to connect as.
    pub user: String,
    /// Remote directory the build runs in.
    pub build_dir: String,
    /// Optional address override; `name` is used when absent.
    pub host: Option<String>,
    /// Optional ssh identity file for authentication.
    pub identity_file: Option<String>,
}

impl View for Host {
    type V = HostSpec;

    open spec fn view(&self) -> HostSpec {
        HostSpec {
            name: self.name@,
            user: self.user@,
            build_dir: self.build_dir@,
            host: match self.host {
                Some(h) => Some(h@),
                None => None,
            },
            identity_file: match self.identity_file {
                Some(f) => Some(f@),
                None => None,
            },
        }
    }
}

impl DeepView for Host {
    type V = HostSpec;

    open spec fn deep_view(&self) -> HostSpec {
        self.view()
    }
}

impl Clone for Host {
    fn clone(&self) -> (r: Self)
        ensures
            r@ == self@,
    {
        Host {
            name: self.name.clone(),
            user: self.user.clone(),
            build_dir: self.build_dir.clone(),
            host: match &self.host {
                Some(h) => Some(h.clone()),
                None => None,
            },
            identity_file: match &self.identity_file {
                Some(f) => Some(f.clone()),
                None => None,
            },
        }
    }
}

impl Host {
    /// The address connected to: the override when set, the name otherwise.
    pub fn host(&self) -> (r: &String)
        ensures
            r@ == self@.addr(),
    {
        match &self.host {
            Some(h) => h,
            None => &self.name,
        }
    }

    /// The full argument list for running `cmd` on this host through `ssh`.
    pub fn ssh_command(&self, cmd: &str) -> (r: Vec<String>)
        ensures
            r.deep_view() == self@.ssh_command(cmd@),
    {
        let mut args: Vec<String> = Vec::new();

        args.push(String::from_str("-o"));
        args.push(String::from_str("PreferredAuthentications=publickey"));

        if let Some(identity_file) = &self.identity_file {
            args.push(String::from_str("-i"));
            args.push(identity_file.clone());
        }

        let mut destination = self.user.clone();
        destination.append("@");
        destination.append(self.host().as_str());
        args.push(destination);

        args.push(String::from_str("-C"));
        args.push(String::from_str(cmd));

        proof {
            assert(args.deep_view() =~= self@.ssh_command(cmd@));
        }
        args
    }

    /// The `GIT_SSH_COMMAND` override for this host, when an identity file is
    /// configured.
    pub fn git_ssh_command(&self) -> (r: Option<String>)
        ensures
            match (r, self@.git_ssh_command()) {
                (Some(s), Some(t)) => s@ == t,
                (None, None) => true,
                _ => false,
            },
    {
        if let Some(identity_file) = &self.identity_file {
            let mut s = String::from_str("ssh -i \"");
            s.append(identity_file.as_str());
            s.append("\"");
            Some(s)
        } else {
            None
        }
    }

    /// The git push URL `user@addr:build_dir` for this host.
    pub fn git_ssh_url(&self) -> (r: String)
        ensures
            r@ == self@.git_ssh_url(),
    {
        let mut url = self.user.clone();
        url.append("@");
        url.append(self.host().as_str());
        url.append(":");
        url.append(self.build_dir.as_str());
        url
    }
}

} // verus!
