use vstd::prelude::*;
use crate::error::{AddressFamily, EchoError, FdCheckFailure, SocketKind};
use crate::fd_inheritance::FdInheritanceConfig;

verus! {

/// An IP address.
#[derive(Debug, Clone, Copy, PartialEq, Eq)]
pub enum IpAddress {
    V4([u8; 4]),
    V6([u16; 8]),
}

/// An IP address and port.
#[derive(Debug, Clone, Copy, PartialEq, Eq)]
pub struct SocketAddress {
    pub ip: IpAddress,
    pub port: u16,
}

/// Where a fresh socket is bound.
#[derive(Debug)]
pub enum BindTarget {
    /// A network address (stream or datagram over IP).
    Network(SocketAddress),
    /// A filesystem path (Unix-domain socket).
    Unix(String),
}

impl BindTarget {
    /// An equal copy.
    pub fn duplicate(&self) -> (r: Self)
        ensures
            r == *self,
    {
        match self {
            BindTarget::Network(addr) => BindTarget::Network(*addr),
            BindTarget::Unix(path) => BindTarget::Unix(path.clone()),
        }
    }

    pub fn is_network(&self) -> (r: bool)
        ensures
            r == (*self is Network),
    {
        matches!(self, BindTarget::Network(_))
    }

    pub fn is_unix(&self) -> (r: bool)
        ensures
            r == (*self is Unix),
    {
        matches!(self, BindTarget::Unix(_))
    }
}

/// How a server obtains its socket. Chosen once, when the server is built.
#[derive(Debug)]
pub enum BindStrategy {
    /// Always bind a fresh socket to the target.
    Bind(BindTarget),
    /// Always adopt this inherited descriptor; fail if it is not usable.
    Inherit(i32),
    /// Adopt a descriptor (this one, or the one inherited under the service's
    /// name), and bind the fallback target when there is none or it is not usable.
    InheritOrBind { fd: Option<i32>, fallback_target: BindTarget },
}

impl BindStrategy {
    /// An equal copy.
    pub fn duplicate(&self) -> (r: Self)
        ensures
            r == *self,
    {
        match self {
            BindStrategy::Bind(target) => BindStrategy::Bind(target.duplicate()),
            BindStrategy::Inherit(fd) => BindStrategy::Inherit(*fd),
            BindStrategy::InheritOrBind { fd, fallback_target } => BindStrategy::InheritOrBind {
                fd: *fd,
                fallback_target: fallback_target.duplicate(),
            },
        }
    }
}

/// Where a socket comes from, once a strategy is resolved.
#[derive(Debug)]
pub enum SocketSource {
    /// Bind a fresh socket to the target.
    Bind(BindTarget),
    /// Adopt an inherited descriptor.
    Inherit(i32),
}

/// Resolution of a strategy: an explicit choice stands; otherwise a descriptor
/// given in the strategy, then one inherited under the service's name, then
/// the fallback target.
pub open spec fn resolve_spec(
    strategy: BindStrategy,
    service_name: Seq<char>,
    inherited: Map<Seq<char>, i32>,
) -> SocketSource {
    match strategy {
        BindStrategy::Bind(target) => SocketSource::Bind(target),
        BindStrategy::Inherit(fd) => SocketSource::Inherit(fd),
        BindStrategy::InheritOrBind { fd, fallback_target } => match fd {
            Some(fd) => SocketSource::Inherit(fd),
            None => if inherited.contains_key(service_name) {
                SocketSource::Inherit(inherited[service_name])
            } else {
                SocketSource::Bind(fallback_target)
            },
        },
    }
}

/// Resolves binding strategies into socket sources.
pub struct SocketBuilder;

impl SocketBuilder {
    /// Decides where the socket comes from.
    pub fn resolve_fd(
        strategy: &BindStrategy,
        service_name: &str,
        fd_config: &FdInheritanceConfig,
    ) -> (r: SocketSource)
        ensures
            r == resolve_spec(*strategy, service_name@, fd_config.fd_map()),
    {
        match strategy {
            BindStrategy::Bind(target) => SocketSource::Bind(target.duplicate()),
            BindStrategy::Inherit(fd) => SocketSource::Inherit(*fd),
            BindStrategy::InheritOrBind { fd, fallback_target } => {
                match fd {
                    Some(fd) => SocketSource::Inherit(*fd),
                    None => match fd_config.get_fd(service_name) {
                        Some(inherited) => SocketSource::Inherit(inherited),
                        None => SocketSource::Bind(fallback_target.duplicate()),
                    },
                }
            },
        }
    }
}

/// Kind of address a protocol binds to.
#[derive(Debug, Clone, Copy, PartialEq, Eq, Structural)]
pub enum TargetKind {
    Network,
    Path,
}

/// What a protocol asks of its listening socket.
#[derive(Debug, Clone)]
pub struct SocketRequirements {
    /// The socket kind an inherited descriptor must have.
    pub kind: SocketKind,
    /// The address families an inherited descriptor may have, tried in order.
    pub families: Vec<AddressFamily>,
    /// The kind of target a fresh socket may be bound to.
    pub target: TargetKind,
}

/// What the operating system reported about a descriptor. Each query gives
/// the value it read (`None` when it is none of the known ones) or the OS
/// error number.
#[derive(Debug, Clone, Copy)]
pub struct FdProbe {
    pub kind: Result<Option<SocketKind>, i32>,
    pub family: Result<Option<AddressFamily>, i32>,
}

/// The socket-kind check of an inherited descriptor.
pub open spec fn kind_check(fd: i32, observed: Result<Option<SocketKind>, i32>, expected: SocketKind) -> Result<(), FdCheckFailure> {
    match observed {
        Err(os_error) => Err(FdCheckFailure::KindQueryFailed { fd, os_error }),
        Ok(kind) => if kind == Some(expected) {
            Ok(())
        } else {
            Err(FdCheckFailure::WrongKind { fd, expected })
        },
    }
}

/// The check of an inherited descriptor against one address family.
pub open spec fn family_check(fd: i32, observed: Result<Option<AddressFamily>, i32>, expected: AddressFamily) -> Result<(), FdCheckFailure> {
    match observed {
        Err(os_error) => Err(FdCheckFailure::FamilyQueryFailed { fd, os_error }),
        Ok(family) => if family == Some(expected) {
            Ok(())
        } else {
            Err(FdCheckFailure::WrongFamily { fd, expected })
        },
    }
}

/// Validation of an inherited descriptor: the socket kind must match; then each
/// accepted family is tried in turn, and when none matches the failure of the
/// last one tried is reported.
pub open spec fn inherited_fd_check(fd: i32, kind: SocketKind, families: Seq<AddressFamily>, probe: FdProbe) -> Result<(), FdCheckFailure> {
    match kind_check(fd, probe.kind, kind) {
        Err(e) => Err(e),
        Ok(_) => if families.len() == 0 {
            Err(FdCheckFailure::NoFamilies { fd })
        } else if exists|i: int| 0 <= i < families.len() && family_check(fd, probe.family, #[trigger] families[i]) is Ok {
            Ok(())
        } else {
            family_check(fd, probe.family, families.last())
        },
    }
}

/// The error that a failed check becomes.
pub open spec fn as_echo_result(r: Result<(), FdCheckFailure>) -> Result<(), EchoError> {
    match r {
        Ok(_) => Ok(()),
        Err(e) => Err(EchoError::FdInheritance(e)),
    }
}

/// Checks the socket kind that the operating system reported for `fd`.
pub fn validate_socket_type(fd: i32, observed: Result<Option<SocketKind>, i32>, expected: SocketKind) -> (r: Result<(), EchoError>)
    ensures
        r == as_echo_result(kind_check(fd, observed, expected)),
{
    match observed {
        Err(os_error) => Err(EchoError::FdInheritance(FdCheckFailure::KindQueryFailed { fd, os_error })),
        Ok(kind) => {
            let matches = match kind {
                Some(k) => k == expected,
                None => false,
            };
            if matches {
                Ok(())
            } else {
                Err(EchoError::FdInheritance(FdCheckFailure::WrongKind { fd, expected }))
            }
        },
    }
}

/// Checks the address family that the operating system reported for `fd`.
pub fn validate_socket_family(fd: i32, observed: Result<Option<AddressFamily>, i32>, expected: AddressFamily) -> (r: Result<(), EchoError>)
    ensures
        r == as_echo_result(family_check(fd, observed, expected)),
{
    match observed {
        Err(os_error) => Err(EchoError::FdInheritance(FdCheckFailure::FamilyQueryFailed { fd, os_error })),
        Ok(family) => {
            let matches = match family {
                Some(f) => f == expected,
                None => false,
            };
            if matches {
                Ok(())
            } else {
                Err(EchoError::FdInheritance(FdCheckFailure::WrongFamily { fd, expected }))
            }
        },
    }
}

/// Validates an inherited descriptor against a protocol's requirements.
pub fn validate_inherited_fd(fd: i32, requirements: &SocketRequirements, probe: &FdProbe) -> (r: Result<(), EchoError>)
    ensures
        r == as_echo_result(inherited_fd_check(fd, requirements.kind, requirements.families@, *probe)),
{
    let kind_result = validate_socket_type(fd, probe.kind, requirements.kind);
    if kind_result.is_err() {
        return kind_result;
    }
    let families = &requirements.families;
    let mut last_error: Option<EchoError> = None;
    let mut i: usize = 0;
    while i < families.len()
        invariant
            i <= families@.len(),
            families@ == requirements.families@,
            kind_check(fd, probe.kind, requirements.kind) is Ok,
            forall|j: int| 0 <= j < i ==> family_check(fd, probe.family, #[trigger] families@[j]) is Err,
            i == 0 <==> last_error is None,
            i > 0 ==> last_error == Some(
                EchoError::FdInheritance(family_check(fd, probe.family, families@[i - 1])->Err_0),
            ),
        decreases families@.len() - i,
    {
        match validate_socket_family(fd, probe.family, families[i]) {
            Ok(()) => {
                assert(family_check(fd, probe.family, families@[i as int]) is Ok);
                return Ok(());
            },
            Err(e) => {
                last_error = Some(e);
            },
        }
        i = i + 1;
    }
    match last_error {
        Some(e) => Err(e),
        None => Err(EchoError::FdInheritance(FdCheckFailure::NoFamilies { fd })),
    }
}

/// How the listening socket is finally obtained.
#[derive(Debug)]
pub enum BuildPlan {
    /// Adopt the validated inherited descriptor.
    Adopt { fd: i32 },
    /// Bind a fresh socket to the target.
    BindFresh { target: BindTarget },
}

/// Whether a protocol can bind to a target.
pub open spec fn target_fits(kind: TargetKind, target: BindTarget) -> bool {
    match target {
        BindTarget::Network(_) => kind == TargetKind::Network,
        BindTarget::Unix(_) => kind == TargetKind::Path,
    }
}

/// Binding to a target: refused when its kind is not the protocol's.
pub open spec fn bind_plan(kind: TargetKind, target: BindTarget) -> Option<BuildPlan> {
    if target_fits(kind, target) {
        Some(BuildPlan::BindFresh { target })
    } else {
        None
    }
}

/// Checks that a protocol with target kind `kind` can bind to `target`.
pub fn check_bind_target(kind: TargetKind, target: &BindTarget) -> (r: Result<(), EchoError>)
    ensures
        target_fits(kind, *target) <==> r is Ok,
        r is Err ==> r->Err_0 is Config,
{
    let fits = match target {
        BindTarget::Network(_) => kind == TargetKind::Network,
        BindTarget::Unix(_) => kind == TargetKind::Path,
    };
    if fits {
        Ok(())
    } else {
        Err(EchoError::Config(String::from_str("The protocol cannot bind to this kind of target")))
    }
}

/// Decides how the socket is obtained from a resolved source. An inherited
/// descriptor is adopted only once it validates; when it does not, an
/// `InheritOrBind` strategy falls back to binding its fallback target, and
/// any other strategy fails with the validation error. `probe` is what the
/// operating system reported about the inherited descriptor; it is not read
/// for a `Bind` source.
pub fn plan_socket(
    strategy: &BindStrategy,
    source: &SocketSource,
    requirements: &SocketRequirements,
    probe: &FdProbe,
) -> (r: Result<BuildPlan, EchoError>)
    ensures
        match *source {
            SocketSource::Bind(target) => match bind_plan(requirements.target, target) {
                Some(plan) => r == Ok::<BuildPlan, EchoError>(plan),
                None => r is Err && r->Err_0 is Config,
            },
            SocketSource::Inherit(fd) => match inherited_fd_check(fd, requirements.kind, requirements.families@, *probe) {
                Ok(_) => r == Ok::<BuildPlan, EchoError>(BuildPlan::Adopt { fd }),
                Err(failure) => match *strategy {
                    BindStrategy::InheritOrBind { fallback_target, .. } => match bind_plan(requirements.target, fallback_target) {
                        Some(plan) => r == Ok::<BuildPlan, EchoError>(plan),
                        None => r is Err && r->Err_0 is Config,
                    },
                    _ => r == Err::<BuildPlan, EchoError>(EchoError::FdInheritance(failure)),
                },
            },
        },
{
    match source {
        SocketSource::Bind(target) => {
            match check_bind_target(requirements.target, target) {
                Ok(()) => Ok(BuildPlan::BindFresh { target: target.duplicate() }),
                Err(e) => Err(e),
            }
        },
        SocketSource::Inherit(fd) => {
            match validate_inherited_fd(*fd, requirements, probe) {
                Ok(()) => Ok(BuildPlan::Adopt { fd: *fd }),
                Err(e) => match strategy {
                    BindStrategy::InheritOrBind { fallback_target, .. } => {
                        match check_bind_target(requirements.target, fallback_target) {
                            Ok(()) => Ok(BuildPlan::BindFresh { target: fallback_target.duplicate() }),
                            Err(e) => Err(e),
                        }
                    },
                    _ => Err(e),
                },
            }
        },
    }
}

/// A descriptor of the wrong socket kind is refused, whatever it is bound to.
pub proof fn lemma_wrong_kind_refused(fd: i32, expected: SocketKind, families: Seq<AddressFamily>, probe: FdProbe)
    requires
        probe.kind is Ok,
        probe.kind->Ok_0 != Some(expected),
    ensures
        inherited_fd_check(fd, expected, families, probe) == Err::<(), FdCheckFailure>(
            FdCheckFailure::WrongKind { fd, expected },
        ),
        as_echo_result(inherited_fd_check(fd, expected, families, probe)) == Err::<(), EchoError>(
            EchoError::FdInheritance(FdCheckFailure::WrongKind { fd, expected }),
        ),
{
}

/// A descriptor whose family is not among the accepted ones is refused.
pub proof fn lemma_wrong_family_refused(fd: i32, expected: SocketKind, families: Seq<AddressFamily>, probe: FdProbe, actual: AddressFamily)
    requires
        probe.kind == Ok::<Option<SocketKind>, i32>(Some(expected)),
        probe.family == Ok::<Option<AddressFamily>, i32>(Some(actual)),
        !families.contains(actual),
    ensures
        inherited_fd_check(fd, expected, families, probe) is Err,
        inherited_fd_check(fd, expected, families, probe)->Err_0 is WrongFamily
            || inherited_fd_check(fd, expected, families, probe)->Err_0 is NoFamilies,
        families.len() > 0 ==> inherited_fd_check(fd, expected, families, probe) == Err::<(), FdCheckFailure>(
            FdCheckFailure::WrongFamily { fd, expected: families.last() },
        ),
        as_echo_result(inherited_fd_check(fd, expected, families, probe)) is Err,
        as_echo_result(inherited_fd_check(fd, expected, families, probe))->Err_0 is FdInheritance,
{
    if exists|i: int| 0 <= i < families.len() && family_check(fd, probe.family, #[trigger] families[i]) is Ok {
        let i = choose|i: int| 0 <= i < families.len() && family_check(fd, probe.family, #[trigger] families[i]) is Ok;
        assert(families[i] == actual);
    }
}

} // verus!
