//! Protocol probes: what each probe targets, and the registry that picks
//! the probes for a port.

use vstd::prelude::*;

use crate::types::Protocol;

verus! {

/// What a probe is: its name, the ports it targets (none: every port) and
/// its transport protocol.
#[derive(Debug)]
pub struct ProbeInfo {
    /// Human-readable probe name.
    pub name: &'static str,
    /// Default port numbers this probe targets (empty: all ports).
    pub default_ports: Vec<u16>,
    /// Protocol this probe operates on.
    pub protocol: Protocol,
}

/// The probe applies to `port` over `protocol`.
pub open spec fn applies(p: ProbeInfo, port: u16, protocol: Protocol) -> bool {
    p.protocol == protocol && (p.default_ports@.len() == 0 || p.default_ports@.contains(port))
}

fn ports_vec(s: &[u16]) -> (v: Vec<u16>)
    ensures
        v@ == s@,
{
    let mut v: Vec<u16> = Vec::new();
    let mut i: usize = 0;
    while i < s.len()
        invariant
            i <= s@.len(),
            v@ =~= s@.take(i as int),
        decreases s.len() - i,
    {
        v.push(s[i]);
        i = i + 1;
    }
    proof {
        assert(s@.take(s@.len() as int) =~= s@);
    }
    v
}

/// Grabs the raw TCP banner from an open port.
pub struct BannerGrabber {
    /// Maximum bytes to read.
    pub max_bytes: usize,
}

impl Default for BannerGrabber {
    fn default() -> (b: Self)
        ensures
            b.max_bytes == 4_096,
    {
        BannerGrabber { max_bytes: 4_096 }
    }
}

impl BannerGrabber {
    /// `banner`, every port, TCP.
    pub fn info(&self) -> (i: ProbeInfo)
        ensures
            i.name@ == "banner"@,
            i.default_ports@.len() == 0,
            i.protocol == Protocol::Tcp,
    {
        ProbeInfo { name: "banner", default_ports: Vec::new(), protocol: Protocol::Tcp }
    }
}

/// Identifies HTTP/HTTPS services.
pub struct HttpProbe;

impl HttpProbe {
    /// `http` on 80, 8080, 8000, 3000 over TCP.
    pub fn info(&self) -> (i: ProbeInfo)
        ensures
            i.name@ == "http"@,
            i.default_ports@ == seq![80u16, 8080u16, 8000u16, 3000u16],
            i.protocol == Protocol::Tcp,
    {
        let p: [u16; 4] = [80, 8080, 8000, 3000];
        proof {
            assert(p@ =~= seq![80u16, 8080u16, 8000u16, 3000u16]);
        }
        ProbeInfo { name: "http", default_ports: ports_vec(p.as_slice()), protocol: Protocol::Tcp }
    }
}

/// Identifies SSH services via banner exchange.
pub struct SshProbe;

impl SshProbe {
    /// `ssh` on 22, 2222 over TCP.
    pub fn info(&self) -> (i: ProbeInfo)
        ensures
            i.name@ == "ssh"@,
            i.default_ports@ == seq![22u16, 2222u16],
            i.protocol == Protocol::Tcp,
    {
        let p: [u16; 2] = [22, 2222];
        proof {
            assert(p@ =~= seq![22u16, 2222u16]);
        }
        ProbeInfo { name: "ssh", default_ports: ports_vec(p.as_slice()), protocol: Protocol::Tcp }
    }
}

/// Identifies FTP services.
pub struct FtpProbe;

impl FtpProbe {
    /// `ftp` on 21 over TCP.
    pub fn info(&self) -> (i: ProbeInfo)
        ensures
            i.name@ == "ftp"@,
            i.default_ports@ == seq![21u16],
            i.protocol == Protocol::Tcp,
    {
        let p: [u16; 1] = [21];
        proof {
            assert(p@ =~= seq![21u16]);
        }
        ProbeInfo { name: "ftp", default_ports: ports_vec(p.as_slice()), protocol: Protocol::Tcp }
    }
}

/// Identifies SMTP mail services.
pub struct SmtpProbe;

impl SmtpProbe {
    /// `smtp` on 25, 465, 587 over TCP.
    pub fn info(&self) -> (i: ProbeInfo)
        ensures
            i.name@ == "smtp"@,
            i.default_ports@ == seq![25u16, 465u16, 587u16],
            i.protocol == Protocol::Tcp,
    {
        let p: [u16; 3] = [25, 465, 587];
        proof {
            assert(p@ =~= seq![25u16, 465u16, 587u16]);
        }
        ProbeInfo { name: "smtp", default_ports: ports_vec(p.as_slice()), protocol: Protocol::Tcp }
    }
}

/// Identifies SMB file sharing services.
pub struct SmbProbe;

impl SmbProbe {
    /// `smb` on 139, 445 over TCP.
    pub fn info(&self) -> (i: ProbeInfo)
        ensures
            i.name@ == "smb"@,
            i.default_ports@ == seq![139u16, 445u16],
            i.protocol == Protocol::Tcp,
    {
        let p: [u16; 2] = [139, 445];
        proof {
            assert(p@ =~= seq![139u16, 445u16]);
        }
        ProbeInfo { name: "smb", default_ports: ports_vec(p.as_slice()), protocol: Protocol::Tcp }
    }
}

/// Identifies DNS services and tests zone transfers.
pub struct DnsProbe;

impl DnsProbe {
    /// `dns` on 53 over UDP.
    pub fn info(&self) -> (i: ProbeInfo)
        ensures
            i.name@ == "dns"@,
            i.default_ports@ == seq![53u16],
            i.protocol == Protocol::Udp,
    {
        let p: [u16; 1] = [53];
        proof {
            assert(p@ =~= seq![53u16]);
        }
        ProbeInfo { name: "dns", default_ports: ports_vec(p.as_slice()), protocol: Protocol::Udp }
    }
}

/// Identifies TLS services and captures certificate / cipher information.
pub struct TlsInspector;

impl TlsInspector {
    /// `tls` on 443, 8443, 465, 993, 995, 5061 over TCP.
    pub fn info(&self) -> (i: ProbeInfo)
        ensures
            i.name@ == "tls"@,
            i.default_ports@ == seq![443u16, 8443u16, 465u16, 993u16, 995u16, 5061u16],
            i.protocol == Protocol::Tcp,
    {
        let p: [u16; 6] = [443, 8443, 465, 993, 995, 5061];
        proof {
            assert(p@ =~= seq![443u16, 8443u16, 465u16, 993u16, 995u16, 5061u16]);
        }
        ProbeInfo { name: "tls", default_ports: ports_vec(p.as_slice()), protocol: Protocol::Tcp }
    }
}

/// The registered probes that apply to a port, in registration order.
pub open spec fn applicable(probes: Seq<ProbeInfo>, port: u16, protocol: Protocol) -> Seq<ProbeInfo>
    decreases probes.len(),
{
    if probes.len() == 0 {
        Seq::empty()
    } else if applies(probes.last(), port, protocol) {
        applicable(probes.drop_last(), port, protocol).push(probes.last())
    } else {
        applicable(probes.drop_last(), port, protocol)
    }
}

fn contains_port(ports: &Vec<u16>, port: u16) -> (b: bool)
    ensures
        b == ports@.contains(port),
{
    let mut i: usize = 0;
    while i < ports.len()
        invariant
            i <= ports@.len(),
            forall|k: int| 0 <= k < i ==> ports@[k] != port,
        decreases ports.len() - i,
    {
        if ports[i] == port {
            proof {
                assert(ports@[i as int] == port);
            }
            return true;
        }
        i = i + 1;
    }
    false
}

/// Holds all registered probes and picks them by port number.
pub struct ProbeRegistry {
    probes: Vec<ProbeInfo>,
}

impl View for ProbeRegistry {
    type V = Seq<ProbeInfo>;

    closed spec fn view(&self) -> Seq<ProbeInfo> {
        self.probes@
    }
}

impl ProbeRegistry {
    /// Create an empty registry.
    pub fn new() -> (r: Self)
        ensures
            r@ == Seq::<ProbeInfo>::empty(),
    {
        ProbeRegistry { probes: Vec::new() }
    }

    /// Register a probe.
    pub fn register(&mut self, probe: ProbeInfo)
        ensures
            final(self)@ == old(self)@.push(probe),
    {
        self.probes.push(probe);
    }

    /// Create a registry with all built-in probes registered: banner, http,
    /// ssh, ftp, smtp, smb, dns, in that order.
    pub fn with_defaults() -> (r: Self)
        ensures
            r@.len() == 7,
            r@[0].name@ == "banner"@ && r@[0].default_ports@.len() == 0 && r@[0].protocol == Protocol::Tcp,
            r@[1].name@ == "http"@ && r@[1].default_ports@ == seq![80u16, 8080u16, 8000u16, 3000u16] && r@[1].protocol == Protocol::Tcp,
            r@[2].name@ == "ssh"@ && r@[2].default_ports@ == seq![22u16, 2222u16] && r@[2].protocol == Protocol::Tcp,
            r@[3].name@ == "ftp"@ && r@[3].default_ports@ == seq![21u16] && r@[3].protocol == Protocol::Tcp,
            r@[4].name@ == "smtp"@ && r@[4].default_ports@ == seq![25u16, 465u16, 587u16] && r@[4].protocol == Protocol::Tcp,
            r@[5].name@ == "smb"@ && r@[5].default_ports@ == seq![139u16, 445u16] && r@[5].protocol == Protocol::Tcp,
            r@[6].name@ == "dns"@ && r@[6].default_ports@ == seq![53u16] && r@[6].protocol == Protocol::Udp,
    {
        let mut r = Self::new();
        r.register(BannerGrabber::default().info());
        r.register(HttpProbe.info());
        r.register(SshProbe.info());
        r.register(FtpProbe.info());
        r.register(SmtpProbe.info());
        r.register(SmbProbe.info());
        r.register(DnsProbe.info());
        r
    }

    /// The probes that should run for the given port and protocol: those
    /// of that protocol that target every port or list this one.
    pub fn probes_for(&self, port: u16, protocol: Protocol) -> (v: Vec<&ProbeInfo>)
        ensures
            v@.map_values(|p: &ProbeInfo| *p) == applicable(self@, port, protocol),
    {
        let mut out: Vec<&ProbeInfo> = Vec::new();
        let mut i: usize = 0;
        while i < self.probes.len()
            invariant
                i <= self.probes@.len(),
                out@.map_values(|p: &ProbeInfo| *p) =~= applicable(self.probes@.take(i as int), port, protocol),
            decreases self.probes.len() - i,
        {
            proof {
                assert(self.probes@.take(i + 1).drop_last() =~= self.probes@.take(i as int));
                assert(self.probes@.take(i + 1).last() == self.probes@[i as int]);
            }
            let p = &self.probes[i];
            if p.protocol == protocol && (p.default_ports.len() == 0 || contains_port(&p.default_ports, port)) {
                out.push(p);
            }
            i = i + 1;
        }
        proof {
            assert(self.probes@.take(self.probes@.len() as int) =~= self.probes@);
        }
        out
    }

    /// Total number of registered probes.
    pub fn len(&self) -> (n: usize)
        ensures
            n == self@.len(),
    {
        self.probes.len()
    }

    /// True if no probes registered.
    pub fn is_empty(&self) -> (b: bool)
        ensures
            b == (self@.len() == 0),
    {
        self.probes.len() == 0
    }
}

impl Default for ProbeRegistry {
    fn default() -> (r: Self)
        ensures
            r@.len() == 7,
    {
        Self::with_defaults()
    }
}

} // verus!
