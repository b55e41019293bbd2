//! The client's device registry and discovery bookkeeping: index ranges,
//! fresh device ids, lookup and removal by id or name, de-duplication of
//! discovery replies, and the records built from interactive input.

use vstd::prelude::*;
use crate::split::{spec_split, split_on};
use crate::strutil::{parse_u32, spec_parse_u32, spec_trim, str_eq, trim};
use crate::types::{AuthConfig, Device, DiscoveredDevice, FlareConfig};

verus! {

/// Why a range expression was rejected.
#[derive(Debug, Clone, Copy, PartialEq, Eq, Structural)]
pub enum RangeError {
    /// A part with more than one dash.
    InvalidRange,
    /// A bound or index that is not a number.
    BadNumber,
}

/// The consecutive indices from `a` through `b`; empty when `a > b`.
pub open spec fn spec_range_seq(a: u32, b: u32) -> Seq<u32> {
    if a > b {
        Seq::empty()
    } else {
        Seq::new((b - a + 1) as nat, |k: int| (a + k) as u32)
    }
}

/// What one comma-separated part denotes: a single index, or a dashed
/// range of them.
pub open spec fn spec_parse_part(p: Seq<char>) -> Result<Seq<u32>, RangeError> {
    let pieces = spec_split(p, '-');
    if pieces.len() == 1 {
        match spec_parse_u32(pieces[0]) {
            Some(v) => Ok(seq![v]),
            None => Err(RangeError::BadNumber),
        }
    } else if pieces.len() == 2 {
        match (spec_parse_u32(pieces[0]), spec_parse_u32(pieces[1])) {
            (Some(a), Some(b)) => Ok(spec_range_seq(a, b)),
            _ => Err(RangeError::BadNumber),
        }
    } else {
        Err(RangeError::InvalidRange)
    }
}

/// The indices a whole range expression denotes, first error winning.
pub open spec fn spec_join_parts(parts: Seq<Seq<char>>) -> Result<Seq<u32>, RangeError>
    decreases parts.len(),
{
    if parts.len() == 0 {
        Ok(Seq::empty())
    } else {
        match spec_parse_part(parts[0]) {
            Err(e) => Err(e),
            Ok(v) => match spec_join_parts(parts.drop_first()) {
                Err(e) => Err(e),
                Ok(rest) => Ok(v + rest),
            },
        }
    }
}

/// A range expression: comma-separated indices and dashed ranges.
pub open spec fn spec_parse_range(s: Seq<char>) -> Result<Seq<u32>, RangeError> {
    spec_join_parts(spec_split(s, ','))
}

fn parse_part(p: &str) -> (r: Result<Vec<u32>, RangeError>)
    ensures
        match r {
            Ok(v) => spec_parse_part(p@) == Ok::<Seq<u32>, RangeError>(v@),
            Err(e) => spec_parse_part(p@) == Err::<Seq<u32>, RangeError>(e),
        },
{
    let pieces = split_on(p, '-');
    let ghost pviews = pieces@.map_values(|x: String| x@);
    if pieces.len() == 1 {
        match parse_u32(pieces[0].as_str()) {
            Some(v) => {
                let mut out: Vec<u32> = Vec::new();
                out.push(v);
                proof {
                    assert(out@ =~= seq![v]);
                }
                Ok(out)
            },
            None => Err(RangeError::BadNumber),
        }
    } else if pieces.len() == 2 {
        let a = parse_u32(pieces[0].as_str());
        let b = parse_u32(pieces[1].as_str());
        match (a, b) {
            (Some(a), Some(b)) => {
                let mut out: Vec<u32> = Vec::new();
                if a <= b {
                    let mut cur: u32 = a;
                    while cur < b
                        invariant
                            a <= cur <= b,
                            out@ == Seq::new((cur - a) as nat, |k: int| (a + k) as u32),
                        decreases b - cur,
                    {
                        out.push(cur);
                        cur += 1;
                        proof {
                            assert(out@ =~= Seq::new((cur - a) as nat, |k: int| (a + k) as u32));
                        }
                    }
                    out.push(b);
                    proof {
                        assert(out@ =~= spec_range_seq(a, b));
                    }
                }
                Ok(out)
            },
            _ => Err(RangeError::BadNumber),
        }
    } else {
        Err(RangeError::InvalidRange)
    }
}

/// Parses a range expression such as a single index, a dashed span, or a
/// comma-separated mix of both, into the indices it names in order.
pub fn parse_range(range: &str) -> (r: Result<Vec<u32>, RangeError>)
    ensures
        match r {
            Ok(v) => spec_parse_range(range@) == Ok::<Seq<u32>, RangeError>(v@),
            Err(e) => spec_parse_range(range@) == Err::<Seq<u32>, RangeError>(e),
        },
{
    let parts = split_on(range, ',');
    let ghost pviews = parts@.map_values(|x: String| x@);
    let mut acc: Vec<u32> = Vec::new();
    let n = parts.len();
    let mut i: usize = 0;
    proof {
        assert(pviews.skip(0) =~= pviews);
    }
    while i < n
        invariant
            i <= n,
            n == parts@.len(),
            pviews == parts@.map_values(|x: String| x@),
            pviews == spec_split(range@, ','),
            spec_join_parts(pviews) == match spec_join_parts(pviews.skip(i as int)) {
                Ok(rest) => Ok::<Seq<u32>, RangeError>(acc@ + rest),
                Err(e) => Err::<Seq<u32>, RangeError>(e),
            },
        decreases n - i,
    {
        proof {
            assert(pviews.skip(i as int)[0] == parts@[i as int]@);
            assert(pviews.skip(i as int).drop_first() =~= pviews.skip(i + 1));
        }
        match parse_part(parts[i].as_str()) {
            Ok(mut v) => {
                let ghost accv = acc@;
                let ghost vv = v@;
                acc.append(&mut v);
                proof {
                    match spec_join_parts(pviews.skip(i + 1)) {
                        Ok(rest) => {
                            assert(accv + (vv + rest) =~= (accv + vv) + rest);
                        },
                        Err(_) => {},
                    }
                }
            },
            Err(e) => {
                return Err(e);
            },
        }
        i += 1;
    }
    proof {
        assert(pviews.skip(n as int) =~= Seq::<Seq<char>>::empty());
        assert(acc@ + Seq::<u32>::empty() =~= acc@);
    }
    Ok(acc)
}

/// The greatest id any registered device carries; zero with none.
pub open spec fn spec_max_id(devs: Seq<Device>) -> u32
    decreases devs.len(),
{
    if devs.len() == 0 {
        0
    } else if devs.last().id > spec_max_id(devs.drop_last()) {
        devs.last().id
    } else {
        spec_max_id(devs.drop_last())
    }
}

/// The id the next registered device gets: one past the greatest in use.
pub fn next_device_id(config: &FlareConfig) -> (r: u32)
    requires
        spec_max_id(config.devices@) < u32::MAX,
    ensures
        r == spec_max_id(config.devices@) + 1,
{
    let n = config.devices.len();
    let mut best: u32 = 0;
    let mut i: usize = 0;
    proof {
        assert(config.devices@.take(0) =~= Seq::<Device>::empty());
    }
    while i < n
        invariant
            i <= n,
            n == config.devices@.len(),
            best == spec_max_id(config.devices@.take(i as int)),
        decreases n - i,
    {
        proof {
            assert(config.devices@.take(i + 1).drop_last() =~= config.devices@.take(i as int));
            assert(config.devices@.take(i + 1).last() == config.devices@[i as int]);
        }
        if config.devices[i].id > best {
            best = config.devices[i].id;
        }
        i += 1;
    }
    proof {
        assert(config.devices@.take(n as int) =~= config.devices@);
        crate::devices::lemma_max_id_bound(config.devices@);
    }
    best + 1
}

/// The greatest id is what some device carries, or zero.
pub proof fn lemma_max_id_bound(devs: Seq<Device>)
    ensures
        spec_max_id(devs) == 0 || exists|j: int| 0 <= j < devs.len() && devs[j].id == spec_max_id(
            devs,
        ),
    decreases devs.len(),
{
    if devs.len() > 0 {
        lemma_max_id_bound(devs.drop_last());
    }
}

/// The first device carrying this id, if any.
pub open spec fn spec_find_by_id(devs: Seq<Device>, id: u32) -> Option<Device>
    decreases devs.len(),
{
    if devs.len() == 0 {
        None
    } else if devs[0].id == id {
        Some(devs[0])
    } else {
        spec_find_by_id(devs.drop_first(), id)
    }
}

/// The first device carrying this name, if any.
pub open spec fn spec_find_by_name(devs: Seq<Device>, name: Seq<char>) -> Option<Device>
    decreases devs.len(),
{
    if devs.len() == 0 {
        None
    } else if devs[0].name matches Some(n) && n@ == name {
        Some(devs[0])
    } else {
        spec_find_by_name(devs.drop_first(), name)
    }
}

/// What looking a device up by id-or-name yields: a numeric query tries
/// ids first and falls back to names; anything else goes by name alone.
pub open spec fn spec_get_device(devs: Seq<Device>, q: Seq<char>) -> Option<Device> {
    let by_id = match spec_parse_u32(q) {
        Some(id) => spec_find_by_id(devs, id),
        None => None,
    };
    if by_id is Some {
        by_id
    } else {
        spec_find_by_name(devs, q)
    }
}

fn find_by_id(devs: &Vec<Device>, id: u32) -> (r: Option<usize>)
    ensures
        match r {
            Some(i) => i < devs@.len() && spec_find_by_id(devs@, id) == Some(devs@[i as int]),
            None => spec_find_by_id(devs@, id) is None,
        },
{
    let n = devs.len();
    let mut i: usize = 0;
    proof {
        assert(devs@.skip(0) =~= devs@);
    }
    while i < n
        invariant
            i <= n,
            n == devs@.len(),
            spec_find_by_id(devs@, id) == spec_find_by_id(devs@.skip(i as int), id),
        decreases n - i,
    {
        proof {
            assert(devs@.skip(i as int)[0] == devs@[i as int]);
            assert(devs@.skip(i as int).drop_first() =~= devs@.skip(i + 1));
        }
        if devs[i].id == id {
            return Some(i);
        }
        i += 1;
    }
    proof {
        assert(devs@.skip(n as int) =~= Seq::<Device>::empty());
    }
    None
}

fn find_by_name(devs: &Vec<Device>, name: &str) -> (r: Option<usize>)
    ensures
        match r {
            Some(i) => i < devs@.len() && spec_find_by_name(devs@, name@) == Some(
                devs@[i as int],
            ),
            None => spec_find_by_name(devs@, name@) is None,
        },
{
    let n = devs.len();
    let mut i: usize = 0;
    proof {
        assert(devs@.skip(0) =~= devs@);
    }
    while i < n
        invariant
            i <= n,
            n == devs@.len(),
            spec_find_by_name(devs@, name@) == spec_find_by_name(devs@.skip(i as int), name@),
        decreases n - i,
    {
        proof {
            assert(devs@.skip(i as int)[0] == devs@[i as int]);
            assert(devs@.skip(i as int).drop_first() =~= devs@.skip(i + 1));
        }
        let hit = match &devs[i].name {
            Some(n) => str_eq(n.as_str(), name),
            None => false,
        };
        if hit {
            return Some(i);
        }
        i += 1;
    }
    proof {
        assert(devs@.skip(n as int) =~= Seq::<Device>::empty());
    }
    None
}

/// The first registered device at this address, if any: how a discovery
/// reply is told apart as already saved or new.
pub open spec fn spec_find_by_addr(devs: Seq<Device>, host: Seq<char>, port: u16) -> Option<
    Device,
>
    decreases devs.len(),
{
    if devs.len() == 0 {
        None
    } else if devs[0].host@ == host && devs[0].port == port {
        Some(devs[0])
    } else {
        spec_find_by_addr(devs.drop_first(), host, port)
    }
}

/// Finds the saved device a discovery reply corresponds to.
pub fn find_saved(config: &FlareConfig, host: &str, port: u16) -> (r: Option<Device>)
    ensures
        match r {
            Some(d) => spec_find_by_addr(config.devices@, host@, port) == Some(d),
            None => spec_find_by_addr(config.devices@, host@, port) is None,
        },
{
    let devs = &config.devices;
    let n = devs.len();
    let mut i: usize = 0;
    proof {
        assert(devs@.skip(0) =~= devs@);
    }
    while i < n
        invariant
            i <= n,
            n == devs@.len(),
            devs@ == config.devices@,
            spec_find_by_addr(devs@, host@, port) == spec_find_by_addr(
                devs@.skip(i as int),
                host@,
                port,
            ),
        decreases n - i,
    {
        proof {
            assert(devs@.skip(i as int)[0] == devs@[i as int]);
            assert(devs@.skip(i as int).drop_first() =~= devs@.skip(i + 1));
        }
        if str_eq(devs[i].host.as_str(), host) && devs[i].port == port {
            assert(spec_find_by_addr(devs@.skip(i as int), host@, port) == Some(
                devs@[i as int],
            ));
            return Some(devs[i].duplicate());
        }
        i += 1;
    }
    proof {
        assert(devs@.skip(n as int) =~= Seq::<Device>::empty());
    }
    None
}

/// Looks a device up by id or name in the registry; the failure message
/// names what was asked for.
pub fn get_device(config: &FlareConfig, id_or_name: &str) -> (r: Result<Device, String>)
    ensures
        match r {
            Ok(d) => spec_get_device(config.devices@, id_or_name@) == Some(d),
            Err(m) => spec_get_device(config.devices@, id_or_name@) is None && m@
                == "Device not found: "@ + id_or_name@,
        },
{
    match parse_u32(id_or_name) {
        Some(id) => match find_by_id(&config.devices, id) {
            Some(i) => {
                return Ok(config.devices[i].duplicate());
            },
            None => {},
        },
        None => {},
    }
    match find_by_name(&config.devices, id_or_name) {
        Some(i) => Ok(config.devices[i].duplicate()),
        None => {
            let mut m: String = "Device not found: ".to_owned();
            m.append(id_or_name);
            Err(m)
        },
    }
}

/// Removes a device: a numeric query goes by id alone, anything else by
/// name; the removed record comes back, or nothing changes.
pub fn remove_device(config: &mut FlareConfig, id_or_name: &str) -> (r: Option<Device>)
    ensures
        match r {
            Some(d) => exists|i: int|
                {
                    &&& 0 <= i < old(config).devices@.len()
                    &&& old(config).devices@[i] == d
                    &&& final(config).devices@ == old(config).devices@.remove(i)
                    &&& (match spec_parse_u32(id_or_name@) {
                        Some(id) => spec_find_by_id(old(config).devices@, id) == Some(d),
                        None => spec_find_by_name(old(config).devices@, id_or_name@) == Some(d),
                    })
                },
            None => *final(config) == *old(config) && (match spec_parse_u32(id_or_name@) {
                Some(id) => spec_find_by_id(old(config).devices@, id) is None,
                None => spec_find_by_name(old(config).devices@, id_or_name@) is None,
            }),
        },
{
    let idx = match parse_u32(id_or_name) {
        Some(id) => find_by_id(&config.devices, id),
        None => find_by_name(&config.devices, id_or_name),
    };
    match idx {
        Some(i) => {
            let removed = config.devices.remove(i);
            Some(removed)
        },
        None => None,
    }
}

/// Notes one discovery reply: a host already seen is dropped, a new one
/// is appended with the daemon's control port.
pub fn note_discovered(found: &mut Vec<DiscoveredDevice>, host: String, port: u16)
    ensures
        (exists|j: int|
            0 <= j < old(found)@.len() && (#[trigger] old(found)@[j]).host@ == host@)
            ==> final(found)@ == old(found)@,
        !(exists|j: int|
            0 <= j < old(found)@.len() && (#[trigger] old(found)@[j]).host@ == host@) ==> {
            &&& final(found)@.len() == old(found)@.len() + 1
            &&& final(found)@.drop_last() == old(found)@
            &&& final(found)@.last().host == host
            &&& final(found)@.last().port == port
        },
{
    let n = found.len();
    let mut i: usize = 0;
    while i < n
        invariant
            i <= n,
            n == found@.len(),
            found@ == old(found)@,
            forall|j: int| 0 <= j < i ==> (#[trigger] found@[j]).host@ != host@,
        decreases n - i,
    {
        if str_eq(found[i].host.as_str(), host.as_str()) {
            assert(found@[i as int].host@ == host@);
            return ;
        }
        i += 1;
    }
    found.push(DiscoveredDevice { host, port });
    proof {
        assert(found@.drop_last() =~= old(found)@);
    }
}

/// The record enrolled for one synced device: the next free id, the
/// trimmed name (or none), the address it answered from, and the plain
/// token the client keeps.
pub fn make_device(
    config: &FlareConfig,
    name_raw: &str,
    host: String,
    port: u16,
    token: String,
) -> (r: Device)
    requires
        spec_max_id(config.devices@) < u32::MAX,
    ensures
        r.id == spec_max_id(config.devices@) + 1,
        spec_trim(name_raw@).len() == 0 ==> r.name is None,
        spec_trim(name_raw@).len() > 0 ==> (r.name matches Some(n) && n@ == spec_trim(name_raw@)),
        r.host == host,
        r.port == port,
        r.token == Some(token),
{
    let name = trim(name_raw);
    Device {
        id: next_device_id(config),
        name: if name.as_str().is_empty() {
            None
        } else {
            Some(name)
        },
        host,
        port,
        token: Some(token),
    }
}

/// The credentials saved from an interactive login: trimmed user and
/// forge, the password as typed; empty answers are not saved.
pub fn auth_from_inputs(user_raw: &str, password: String, forge_raw: &str) -> (r: AuthConfig)
    ensures
        spec_trim(user_raw@).len() == 0 ==> r.user is None,
        spec_trim(user_raw@).len() > 0 ==> (r.user matches Some(u) && u@ == spec_trim(user_raw@)),
        password@.len() == 0 ==> r.password is None,
        password@.len() > 0 ==> r.password == Some(password),
        spec_trim(forge_raw@).len() == 0 ==> r.forge is None,
        spec_trim(forge_raw@).len() > 0 ==> (r.forge matches Some(f) && f@ == spec_trim(
            forge_raw@,
        )),
{
    let user = trim(user_raw);
    let forge = trim(forge_raw);
    AuthConfig {
        user: if user.as_str().is_empty() {
            None
        } else {
            Some(user)
        },
        password: if password.as_str().is_empty() {
            None
        } else {
            Some(password)
        },
        forge: if forge.as_str().is_empty() {
            None
        } else {
            Some(forge)
        },
    }
}

} // verus!
