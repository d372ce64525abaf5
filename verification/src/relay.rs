//! The relay's state: which devices are online, who is paired with whom, and
//! where what a device sends has to go.

use crate::auth;
use crate::frame;
use crate::message::{
    ErrorCode, Message, PairResponse, PeerDisconnected, Ping, RegisterResponse, Type,
};
use crate::table::{lists, texts, Table};
use vstd::prelude::*;

verus! {

/// A device that is online.
pub struct DeviceEntry<C> {
    pub connection: C,
    pub paired_with: Option<String>,
    /// When the device was last heard of, in nanoseconds on the relay's clock.
    pub last_heartbeat: u128,
}

/// What the relay knows of a device.
pub struct Device<C> {
    pub connection: C,
    pub paired_with: Option<Seq<char>>,
    pub last_heartbeat: u128,
}

/// The devices that are online, by id.
pub type Devices<C> = Map<Seq<char>, Device<C>>;

/// Everything the relay's connections share. A connection is whatever the
/// transport hands out; the relay only keeps it and gives it back.
pub struct RelayState<C> {
    pub devices: Table<DeviceEntry<C>>,
    pub pre_shared_key: Vec<u8>,
}

/// A message that the relay owes to a device other than the one it serves.
#[derive(Debug)]
pub struct Notice {
    pub to: String,
    pub message: Message,
}

/// What a successful registration brings about.
#[derive(Debug)]
pub struct Registered {
    pub online_devices: Vec<String>,
    pub notice: Option<Notice>,
}

/// Bytes on their way to a connection.
pub struct Forward<'a, C> {
    pub to: &'a C,
    pub data: Vec<u8>,
}

/// The reason given to a peer whose partner registered again.
pub const REASON_REREGISTERED: &'static str = "对端重新上线";

/// The reason given to a peer whose partner ended the pairing.
pub const REASON_DISCONNECTED: &'static str = "对端主动断开";

/// The reason given to a peer whose partner went offline.
pub const REASON_OFFLINE: &'static str = "对端离线";

impl<C> View for DeviceEntry<C> {
    type V = Device<C>;

    open spec fn view(&self) -> Device<C> {
        Device {
            connection: self.connection,
            paired_with: match self.paired_with {
                Some(id) => Some(id@),
                None => None,
            },
            last_heartbeat: self.last_heartbeat,
        }
    }
}

impl<C> View for RelayState<C> {
    type V = Devices<C>;

    open spec fn view(&self) -> Devices<C> {
        self.devices@.map_values(|e: DeviceEntry<C>| e@)
    }
}

/// The id that a device is paired with.
pub open spec fn peer_of<C>(m: Devices<C>, id: Seq<char>) -> Option<Seq<char>> {
    if m.contains_key(id) {
        m[id].paired_with
    } else {
        None
    }
}

/// Whether the peer of a device, if it has one, is another device that is online and
/// paired with it.
pub open spec fn has_mutual_peer<C>(m: Devices<C>, id: Seq<char>) -> bool {
    match m[id].paired_with {
        Some(peer) => peer != id && m.contains_key(peer) && m[peer].paired_with == Some(id),
        None => true,
    }
}

/// Pairings are mutual, between two different devices that are both online.
pub open spec fn mutual<C>(m: Devices<C>) -> bool {
    forall|id: Seq<char>| #[trigger] m.contains_key(id) ==> has_mutual_peer(m, id)
}

/// The devices once `id` is paired with nobody.
pub open spec fn unpaired<C>(m: Devices<C>, id: Seq<char>) -> Devices<C> {
    if m.contains_key(id) {
        m.insert(id, Device { paired_with: None, ..m[id] })
    } else {
        m
    }
}

/// The devices once the peer of `id`, if there is one, is paired with nobody.
pub open spec fn peer_released<C>(m: Devices<C>, id: Seq<char>) -> Devices<C> {
    match peer_of(m, id) {
        Some(peer) => unpaired(m, peer),
        None => m,
    }
}

/// The devices after `id` went offline.
pub open spec fn removed<C>(m: Devices<C>, id: Seq<char>) -> Devices<C> {
    peer_released(m, id).remove(id)
}

/// The devices after `id` registered.
pub open spec fn registered<C>(m: Devices<C>, id: Seq<char>, connection: C, now: u128) -> Devices<
    C,
> {
    removed(m, id).insert(id, Device { connection, paired_with: None, last_heartbeat: now })
}

/// The devices after `a` and `b` were paired.
pub open spec fn paired<C>(m: Devices<C>, a: Seq<char>, b: Seq<char>) -> Devices<C> {
    m.insert(a, Device { paired_with: Some(b), ..m[a] }).insert(
        b,
        Device { paired_with: Some(a), ..m[b] },
    )
}

/// The devices after `id` gave up its pairing.
pub open spec fn disconnected<C>(m: Devices<C>, id: Seq<char>) -> Devices<C> {
    unpaired(peer_released(m, id), id)
}

/// The devices after `id` was heard of.
pub open spec fn heard<C>(m: Devices<C>, id: Seq<char>, now: u128) -> Devices<C> {
    if m.contains_key(id) {
        m.insert(id, Device { last_heartbeat: now, ..m[id] })
    } else {
        m
    }
}

/// The ids that have been silent for longer than `timeout`.
pub open spec fn stale<C>(m: Devices<C>, now: u128, timeout: u128) -> Set<Seq<char>> {
    m.dom().filter(|id: Seq<char>| now - m[id].last_heartbeat > timeout)
}

/// Why `from` cannot be paired with `target`, if it cannot.
pub open spec fn pair_refusal<C>(m: Devices<C>, from: Seq<char>, target: Seq<char>) -> Option<
    ErrorCode,
> {
    if from == target || !m.contains_key(from) {
        Some(ErrorCode::DeviceNotFound)
    } else if m[from].paired_with is Some {
        Some(ErrorCode::AlreadyPaired)
    } else if !m.contains_key(target) {
        Some(ErrorCode::DeviceNotFound)
    } else if m[target].paired_with is Some {
        Some(ErrorCode::AlreadyPaired)
    } else {
        None
    }
}

/// Why a pairing of `id` cannot be ended, if it cannot.
pub open spec fn disconnect_refusal<C>(m: Devices<C>, id: Seq<char>) -> Option<ErrorCode> {
    if m.contains_key(id) {
        None
    } else {
        Some(ErrorCode::DeviceNotFound)
    }
}

/// The connection of a device, if it is online.
pub open spec fn connection_in<C>(m: Devices<C>, id: Seq<char>) -> Option<C> {
    if m.contains_key(id) {
        Some(m[id].connection)
    } else {
        None
    }
}

/// The connection of the peer of a device, if it has one.
pub open spec fn peer_connection<C>(m: Devices<C>, from: Seq<char>) -> Result<C, ErrorCode> {
    match peer_of(m, from) {
        Some(peer) => Ok(m[peer].connection),
        None => Err(ErrorCode::DeviceNotFound),
    }
}

/// The datagram that takes a datagram on to the peer.
pub open spec fn datagram_of(data: Seq<u8>) -> Seq<u8> {
    data
}

/// The bytes of the stream that takes an encoded message on to the peer.
pub open spec fn stream_of(encoded: Seq<u8>) -> Seq<u8> {
    frame::frame_of(encoded)
}

/// Whether `m` tells a device that its peer is gone, and why.
pub open spec fn is_peer_disconnected(m: Message, reason: Seq<char>) -> bool {
    m.kind matches Some(Type::PeerDisconnected(p)) && p.reason@ == reason
}

/// Whether `notice` is what the peer of `id` is owed: one message if there is a
/// peer, none otherwise.
pub open spec fn notifies_peer<C>(
    notice: Option<Notice>,
    m: Devices<C>,
    id: Seq<char>,
    reason: Seq<char>,
) -> bool {
    match peer_of(m, id) {
        Some(peer) => notice matches Some(n) && n.to@ == peer && is_peer_disconnected(
            n.message,
            reason,
        ),
        None => notice is None,
    }
}

/// Whether devices leave, part, are heard of or are paired, pairings stay mutual.
pub proof fn law_pairings_stay_mutual<C>(m: Devices<C>, a: Seq<char>, b: Seq<char>, now: u128)
    requires
        mutual(m),
    ensures
        mutual(removed(m, a)),
        mutual(disconnected(m, a)),
        mutual(heard(m, a, now)),
        pair_refusal(m, a, b) is None ==> mutual(paired(m, a, b)),
{
    let off = removed(m, a);
    assert forall|k: Seq<char>| #[trigger] off.contains_key(k) implies has_mutual_peer(off, k)
        && off[k].paired_with != Some(a) by {
        assert(m.contains_key(k));
        if off[k].paired_with is Some {
            let peer = off[k].paired_with->0;
            assert(m[k].paired_with == Some(peer));
            assert(m.contains_key(peer));
            if peer == a {
                assert(m[a].paired_with == Some(k));
            }
        }
    }
    let cut = disconnected(m, a);
    assert forall|k: Seq<char>| #[trigger] cut.contains_key(k) implies has_mutual_peer(cut, k) by {
        assert(m.contains_key(k));
    }
    let beat = heard(m, a, now);
    assert forall|k: Seq<char>| #[trigger] beat.contains_key(k) implies has_mutual_peer(
        beat,
        k,
    ) by {
        assert(m.contains_key(k));
    }
    if pair_refusal(m, a, b) is None {
        let tied = paired(m, a, b);
        assert forall|k: Seq<char>| #[trigger] tied.contains_key(k) implies has_mutual_peer(
            tied,
            k,
        ) by {
            assert(m.contains_key(k));
        }
    }
}

impl<C> RelayState<C> {
    /// The table is sound, the key can sign, and pairings are mutual.
    pub open spec fn wf(&self) -> bool {
        &&& self.devices.wf()
        &&& self.pre_shared_key@.len() <= auth::MAX_HMAC_KEY
        &&& mutual(self@)
    }

    pub fn new(pre_shared_key: Vec<u8>) -> (state: Self)
        requires
            pre_shared_key@.len() <= auth::MAX_HMAC_KEY,
        ensures
            state.wf(),
            state@ == Map::<Seq<char>, Device<C>>::empty(),
            state.pre_shared_key == pre_shared_key,
    {
        let state = RelayState { devices: Table::new(), pre_shared_key };
        assert(state@ =~= Map::<Seq<char>, Device<C>>::empty());
        state
    }

    /// The id that a device is paired with.
    fn peer_id(&self, id: &str) -> (peer: Option<String>)
        requires
            self.devices.wf(),
        ensures
            match peer {
                Some(p) => peer_of(self@, id@) == Some(p@),
                None => peer_of(self@, id@) is None,
            },
    {
        match self.devices.get(id) {
            Some(entry) => match &entry.paired_with {
                Some(peer) => Some(peer.clone()),
                None => None,
            },
            None => None,
        }
    }

    /// Leaves a device paired with nobody.
    fn unpair(&mut self, id: &str)
        requires
            old(self).devices.wf(),
        ensures
            final(self).devices.wf(),
            final(self)@ == unpaired(old(self)@, id@),
            final(self).pre_shared_key == old(self).pre_shared_key,
    {
        if let Some(entry) = self.devices.get_mut(id) {
            entry.paired_with = None;
        }
        assert(self@ =~= unpaired(old(self)@, id@));
    }

    /// Frees the peer of a device and says what the peer has to be told.
    fn release_peer(&mut self, id: &str, reason: &str) -> (notice: Option<Notice>)
        requires
            old(self).devices.wf(),
        ensures
            final(self).devices.wf(),
            final(self)@ == peer_released(old(self)@, id@),
            final(self).pre_shared_key == old(self).pre_shared_key,
            notifies_peer(notice, old(self)@, id@, reason@),
    {
        match self.peer_id(id) {
            Some(peer) => {
                self.unpair(peer.as_str());
                Some(Notice { to: peer, message: build_peer_disconnected(reason) })
            },
            None => None,
        }
    }

    /// Registers a device: checks its token and puts it into the table, paired
    /// with nobody. A device that was registered before is replaced, and its
    /// peer is freed and told.
    pub fn register(
        &mut self,
        device_id: String,
        connection: C,
        auth_token: &[u8],
        now: u128,
    ) -> (r: Result<Registered, ErrorCode>)
        requires
            old(self).wf(),
            auth::signable(old(self).pre_shared_key@, device_id@),
        ensures
            final(self).wf(),
            final(self).pre_shared_key == old(self).pre_shared_key,
            r is Ok <==> auth::accepts(old(self).pre_shared_key@, device_id@, auth_token@),
            match r {
                Ok(done) => {
                    &&& final(self)@ == registered(old(self)@, device_id@, connection, now)
                    &&& lists(done.online_devices@, old(self)@.dom().remove(device_id@))
                    &&& notifies_peer(done.notice, old(self)@, device_id@, REASON_REREGISTERED@)
                },
                Err(code) => code == ErrorCode::AuthFailed && final(self)@ == old(self)@,
            },
    {
        if !auth::verify_token(self.pre_shared_key.as_slice(), device_id.as_str(), auth_token) {
            return Err(ErrorCode::AuthFailed);
        }
        let notice = self.remove_with_reason(device_id.as_str(), REASON_REREGISTERED);
        let ids = self.devices.ids();
        let online_devices = ids.clone();
        proof {
            assert(texts(online_devices@) =~= texts(ids@));
            assert(self.devices@.dom() =~= self@.dom());
            assert(self@.dom() =~= old(self)@.dom().remove(device_id@)) by {
                assert forall|k: Seq<char>| self@.dom().contains(k) == old(self)@.dom().remove(
                    device_id@,
                ).contains(k) by {}
            }
        }
        let ghost key = device_id@;
        self.devices.insert(
            device_id,
            DeviceEntry { connection, paired_with: None, last_heartbeat: now },
        );
        proof {
            assert(self@ =~= registered(old(self)@, key, connection, now));
            law_registered_is_free(old(self)@, key, connection, now);
        }
        Ok(Registered { online_devices, notice })
    }

    /// Takes a device out of the table and frees its peer.
    fn remove_with_reason(&mut self, id: &str, reason: &str) -> (notice: Option<Notice>)
        requires
            old(self).wf(),
        ensures
            final(self).wf(),
            final(self)@ == removed(old(self)@, id@),
            final(self).pre_shared_key == old(self).pre_shared_key,
            notifies_peer(notice, old(self)@, id@, reason@),
    {
        let notice = self.release_peer(id, reason);
        let _ = self.devices.remove(id);
        assert(self@ =~= removed(old(self)@, id@));
        proof {
            law_pairings_stay_mutual(old(self)@, id@, id@, 0);
        }
        notice
    }

    /// Pairs two devices that are online and free.
    pub fn pair(&mut self, from_device: &str, target_device: &str) -> (r: Result<(), ErrorCode>)
        requires
            old(self).wf(),
        ensures
            final(self).wf(),
            final(self).pre_shared_key == old(self).pre_shared_key,
            match pair_refusal(old(self)@, from_device@, target_device@) {
                Some(code) => r == Err::<(), ErrorCode>(code) && final(self)@ == old(self)@,
                None => r is Ok && final(self)@ == paired(
                    old(self)@,
                    from_device@,
                    target_device@,
                ),
            },
    {
        let from: String = from_device.to_owned();
        let target: String = target_device.to_owned();
        if from == target {
            return Err(ErrorCode::DeviceNotFound);
        }
        match self.devices.get(from_device) {
            Some(entry) => {
                if entry.paired_with.is_some() {
                    return Err(ErrorCode::AlreadyPaired);
                }
            },
            None => return Err(ErrorCode::DeviceNotFound),
        }
        match self.devices.get(target_device) {
            Some(entry) => {
                if entry.paired_with.is_some() {
                    return Err(ErrorCode::AlreadyPaired);
                }
            },
            None => return Err(ErrorCode::DeviceNotFound),
        }
        if let Some(entry) = self.devices.get_mut(from_device) {
            entry.paired_with = Some(target);
        }
        if let Some(entry) = self.devices.get_mut(target_device) {
            entry.paired_with = Some(from);
        }
        assert(self@ =~= paired(old(self)@, from_device@, target_device@));
        proof {
            law_pairings_stay_mutual(old(self)@, from_device@, target_device@, 0);
        }
        Ok(())
    }

    /// Ends the pairing of a device and says what the peer has to be told.
    pub fn disconnect(&mut self, device_id: &str) -> (r: Result<Option<Notice>, ErrorCode>)
        requires
            old(self).wf(),
        ensures
            final(self).wf(),
            final(self).pre_shared_key == old(self).pre_shared_key,
            final(self)@ == disconnected(old(self)@, device_id@),
            match disconnect_refusal(old(self)@, device_id@) {
                None => r matches Ok(notice) && notifies_peer(
                    notice,
                    old(self)@,
                    device_id@,
                    REASON_DISCONNECTED@,
                ),
                Some(code) => r matches Err(e) && e == code,
            },
    {
        if self.devices.get(device_id).is_none() {
            assert(self@ =~= disconnected(old(self)@, device_id@));
            return Err(ErrorCode::DeviceNotFound);
        }
        let notice = self.release_peer(device_id, REASON_DISCONNECTED);
        self.unpair(device_id);
        proof {
            law_pairings_stay_mutual(old(self)@, device_id@, device_id@, 0);
        }
        Ok(notice)
    }

    /// Takes a device that went offline out of the table, frees its peer and says
    /// what the peer has to be told.
    pub fn remove_device(&mut self, device_id: &str) -> (notice: Option<Notice>)
        requires
            old(self).wf(),
        ensures
            final(self).wf(),
            final(self).pre_shared_key == old(self).pre_shared_key,
            final(self)@ == removed(old(self)@, device_id@),
            notifies_peer(notice, old(self)@, device_id@, REASON_OFFLINE@),
    {
        self.remove_with_reason(device_id, REASON_OFFLINE)
    }

    /// Notes that a device was heard of at `now`.
    pub fn heartbeat(&mut self, device_id: &str, now: u128)
        requires
            old(self).wf(),
        ensures
            final(self).wf(),
            final(self).pre_shared_key == old(self).pre_shared_key,
            final(self)@ == heard(old(self)@, device_id@, now),
    {
        if let Some(entry) = self.devices.get_mut(device_id) {
            entry.last_heartbeat = now;
        }
        assert(self@ =~= heard(old(self)@, device_id@, now));
        proof {
            law_pairings_stay_mutual(old(self)@, device_id@, device_id@, now);
        }
    }

    /// The devices that have been silent for longer than `timeout` nanoseconds.
    pub fn stale_devices(&self, now: u128, timeout: u128) -> (ids: Vec<String>)
        requires
            self.wf(),
        ensures
            lists(ids@, stale(self@, now, timeout)),
    {
        let all = self.devices.ids();
        let mut ids: Vec<String> = Vec::new();
        let mut i: usize = 0;
        while i < all.len()
            invariant
                self.wf(),
                0 <= i <= all@.len(),
                lists(all@, self.devices@.dom()),
                texts(ids@).no_duplicates(),
                forall|k: Seq<char>|
                    texts(ids@).contains(k) <==> texts(all@).take(i as int).contains(k) && stale(
                        self@,
                        now,
                        timeout,
                    ).contains(k),
            decreases all@.len() - i,
        {
            proof {
                assert(texts(all@)[i as int] == all@[i as int]@);
                assert(texts(all@).to_set().contains(texts(all@)[i as int]));
                assert(texts(all@).take(i + 1) =~= texts(all@).take(i as int).push(
                    texts(all@)[i as int],
                ));
            }
            let ghost before = ids@;
            if let Some(entry) = self.devices.get(all[i].as_str()) {
                if now > entry.last_heartbeat && now - entry.last_heartbeat > timeout {
                    ids.push(all[i].clone());
                }
            }
            proof {
                let k0 = texts(all@)[i as int];
                assert(!texts(all@).take(i as int).contains(k0));
                if ids@.len() > before.len() {
                    assert(texts(ids@) =~= texts(before).push(k0));
                    assert(!texts(before).contains(k0));
                }
                assert forall|k: Seq<char>|
                    texts(ids@).contains(k) <==> texts(all@).take(i + 1).contains(k) && stale(
                        self@,
                        now,
                        timeout,
                    ).contains(k) by {
                    let s = texts(all@).take(i as int);
                    assert(s.push(k0).contains(k) <==> s.contains(k) || k == k0) by {
                        if s.contains(k) {
                            let j = choose|j: int| 0 <= j < s.len() && s[j] == k;
                            assert(s.push(k0)[j] == k);
                        }
                        assert(s.push(k0)[s.len() as int] == k0);
                    }
                    let b = texts(before);
                    assert(b.push(k0).contains(k) <==> b.contains(k) || k == k0) by {
                        if b.contains(k) {
                            let j = choose|j: int| 0 <= j < b.len() && b[j] == k;
                            assert(b.push(k0)[j] == k);
                        }
                        assert(b.push(k0)[b.len() as int] == k0);
                    }
                }
            }
            i += 1;
        }
        proof {
            assert(texts(all@).take(i as int) =~= texts(all@));
            assert(texts(ids@).to_set() =~= stale(self@, now, timeout)) by {
                assert forall|k: Seq<char>| stale(self@, now, timeout).contains(k) implies texts(
                    ids@,
                ).contains(k) by {
                    assert(texts(all@).to_set().contains(k));
                }
            }
        }
        ids
    }

    /// The connection of the peer of a device.
    pub fn get_peer_connection(&self, from_device: &str) -> (r: Result<&C, ErrorCode>)
        requires
            self.wf(),
        ensures
            match peer_connection(self@, from_device@) {
                Ok(to) => r matches Ok(c) && *c == to,
                Err(code) => r matches Err(e) && e == code,
            },
    {
        match self.peer_id(from_device) {
            Some(peer) => {
                assert(self@.contains_key(from_device@));
                match self.devices.get(peer.as_str()) {
                    Some(entry) => Ok(&entry.connection),
                    None => Err(ErrorCode::DeviceNotFound),
                }
            },
            None => Err(ErrorCode::DeviceNotFound),
        }
    }

    /// A datagram on its way to the peer, byte for byte.
    pub fn forward_datagram(&self, from_device: &str, data: &[u8]) -> (r: Result<
        Forward<'_, C>,
        ErrorCode,
    >)
        requires
            self.wf(),
        ensures
            match peer_connection(self@, from_device@) {
                Ok(to) => r matches Ok(f) && *f.to == to && f.data@ == datagram_of(data@),
                Err(code) => r matches Err(e) && e == code,
            },
    {
        match self.get_peer_connection(from_device) {
            Ok(to) => Ok(Forward { to, data: vstd::slice::slice_to_vec(data) }),
            Err(code) => Err(code),
        }
    }

    /// An encoded message on its way to the peer, framed for a stream of its own.
    pub fn forward_encoded_msg(&self, from_device: &str, encoded: &[u8]) -> (r: Result<
        Forward<'_, C>,
        ErrorCode,
    >)
        requires
            self.wf(),
            encoded@.len() + 4 <= usize::MAX,
        ensures
            match peer_connection(self@, from_device@) {
                Ok(to) => r matches Ok(f) && *f.to == to && f.data@ == stream_of(encoded@),
                Err(code) => r matches Err(e) && e == code,
            },
    {
        match self.get_peer_connection(from_device) {
            Ok(to) => Ok(Forward { to, data: frame::encode_frame(encoded) }),
            Err(code) => Err(code),
        }
    }

    /// The connection of a device that is online.
    pub fn connection_of(&self, device_id: &str) -> (c: Option<&C>)
        requires
            self.wf(),
        ensures
            match connection_in(self@, device_id@) {
                Some(found) => c matches Some(d) && *d == found,
                None => c is None,
            },
    {
        match self.devices.get(device_id) {
            Some(entry) => Some(&entry.connection),
            None => None,
        }
    }
}

/// What forwarding reports once the transport has, or has not, taken the bytes.
pub open spec fn reported(taken: bool) -> Result<(), ErrorCode> {
    if taken {
        Ok(())
    } else {
        Err(ErrorCode::Internal)
    }
}

/// What forwarding reports once the transport has, or has not, taken the bytes.
pub fn forward_result(taken: bool) -> (r: Result<(), ErrorCode>)
    ensures
        r == reported(taken),
{
    if taken {
        Ok(())
    } else {
        Err(ErrorCode::Internal)
    }
}

/// Tells a device that its peer is gone.
pub fn build_peer_disconnected(reason: &str) -> (m: Message)
    ensures
        is_peer_disconnected(m, reason@),
{
    Message { kind: Some(Type::PeerDisconnected(PeerDisconnected { reason: reason.to_owned() })) }
}

/// Answers a registration.
pub fn build_register_response(
    error_code: ErrorCode,
    error_message: String,
    online_devices: Vec<String>,
) -> (m: Message)
    ensures
        m.kind == Some(
            Type::RegisterResponse(
                RegisterResponse {
                    error_code: error_code.spec_code(),
                    error_message,
                    online_devices,
                },
            ),
        ),
{
    Message {
        kind: Some(
            Type::RegisterResponse(
                RegisterResponse { error_code: error_code.code(), error_message, online_devices },
            ),
        ),
    }
}

/// Answers a request to be paired.
pub fn build_pair_response(error_code: ErrorCode, error_message: String) -> (m: Message)
    ensures
        m.kind == Some(
            Type::PairResponse(PairResponse { error_code: error_code.spec_code(), error_message }),
        ),
{
    Message {
        kind: Some(
            Type::PairResponse(PairResponse { error_code: error_code.code(), error_message }),
        ),
    }
}

/// Asks a device whether it is still there.
pub fn build_ping(timestamp_ms: i64) -> (m: Message)
    ensures
        m.kind == Some(Type::Ping(Ping { timestamp_ms })),
{
    Message { kind: Some(Type::Ping(Ping { timestamp_ms })) }
}

/// What two paired devices send goes to each other, and to nobody else.
pub proof fn law_forwarding_is_mutual<C>(m: Devices<C>, a: Seq<char>, b: Seq<char>)
    requires
        mutual(m),
        peer_of(m, a) == Some(b),
    ensures
        peer_of(m, b) == Some(a),
        a != b,
        forall|c: Seq<char>| #[trigger] peer_of(m, c) == Some(b) ==> c == a,
{
    assert(m.contains_key(a));
    assert forall|c: Seq<char>| #[trigger] peer_of(m, c) == Some(b) implies c == a by {
        assert(m.contains_key(c));
    }
}

/// Any two different devices that are online and free can be paired, in either
/// direction, and no others can.
pub proof fn law_free_devices_can_be_paired<C>(m: Devices<C>, a: Seq<char>, b: Seq<char>)
    ensures
        pair_refusal(m, a, b) is None <==> a != b && m.contains_key(a) && m.contains_key(b)
            && peer_of(m, a) is None && peer_of(m, b) is None,
        pair_refusal(m, a, b) is None <==> pair_refusal(m, b, a) is None,
{
}

/// A granted pairing binds the two devices to each other and leaves every other
/// device as it was.
pub proof fn law_pairing_binds_both<C>(m: Devices<C>, a: Seq<char>, b: Seq<char>)
    requires
        pair_refusal(m, a, b) is None,
    ensures
        peer_of(paired(m, a, b), a) == Some(b),
        peer_of(paired(m, a, b), b) == Some(a),
        paired(m, a, b).dom() == m.dom(),
        forall|c: Seq<char>|
            c != a && c != b && m.contains_key(c) ==> #[trigger] paired(m, a, b)[c] == m[c],
{
    assert(paired(m, a, b).dom() =~= m.dom());
}

/// Whichever of the two ends a pairing, both are left as they were before it.
pub proof fn law_disconnect_undoes_pairing<C>(m: Devices<C>, a: Seq<char>, b: Seq<char>)
    requires
        pair_refusal(m, a, b) is None,
    ensures
        disconnected(paired(m, a, b), a) == m,
        disconnected(paired(m, a, b), b) == m,
{
    assert(disconnected(paired(m, a, b), a) =~= m);
    assert(disconnected(paired(m, a, b), b) =~= m);
}

/// A device that went offline is gone, no device is paired with it any more, and
/// the pairings of all but its peer stand.
pub proof fn law_removed_is_forgotten<C>(m: Devices<C>, id: Seq<char>)
    requires
        mutual(m),
    ensures
        mutual(removed(m, id)),
        removed(m, id).dom() == m.dom().remove(id),
        forall|c: Seq<char>| #[trigger] peer_of(removed(m, id), c) != Some(id),
        forall|c: Seq<char>|
            c != id && peer_of(m, c) != Some(id) ==> #[trigger] peer_of(removed(m, id), c)
                == peer_of(m, c),
{
    law_pairings_stay_mutual(m, id, id, 0);
    assert(removed(m, id).dom() =~= m.dom().remove(id)) by {
        assert forall|k: Seq<char>|
            removed(m, id).dom().contains(k) == m.dom().remove(id).contains(k) by {}
    }
    assert forall|c: Seq<char>| #[trigger] peer_of(removed(m, id), c) != Some(id) by {
        if removed(m, id).contains_key(c) {
            assert(removed(m, id)[c].paired_with != Some(id));
        }
    }
    assert forall|c: Seq<char>|
        c != id && peer_of(m, c) != Some(id) implies #[trigger] peer_of(removed(m, id), c)
        == peer_of(m, c) by {
        assert(m.contains_key(c) == removed(m, id).contains_key(c));
        if m.contains_key(id) && m[id].paired_with == Some(c) {
            assert(m[c].paired_with == Some(id));
        }
    }
}

/// A device that registers is online and free, and so is the device that it was
/// paired with before; pairings stay mutual.
pub proof fn law_registered_is_free<C>(m: Devices<C>, id: Seq<char>, connection: C, now: u128)
    requires
        mutual(m),
    ensures
        mutual(registered(m, id, connection, now)),
        registered(m, id, connection, now).dom() == m.dom().insert(id),
        peer_of(registered(m, id, connection, now), id) is None,
        peer_of(m, id) matches Some(peer) ==> peer_of(registered(m, id, connection, now), peer)
            is None,
{
    law_removed_is_forgotten(m, id);
    let on = registered(m, id, connection, now);
    assert(on.dom() =~= m.dom().insert(id));
    assert forall|k: Seq<char>| #[trigger] on.contains_key(k) implies has_mutual_peer(on, k) by {
        if k != id {
            assert(removed(m, id).contains_key(k));
            assert(peer_of(removed(m, id), k) != Some(id));
        }
    }
}

/// A device that was heard of is not stale before the timeout has passed, and
/// hearing of one device makes no other stale.
pub proof fn law_heard_is_not_stale<C>(
    m: Devices<C>,
    id: Seq<char>,
    heard_at: u128,
    now: u128,
    timeout: u128,
)
    requires
        now - heard_at <= timeout,
    ensures
        stale(heard(m, id, heard_at), now, timeout) == stale(m, now, timeout).remove(id),
{
    assert(stale(heard(m, id, heard_at), now, timeout) =~= stale(m, now, timeout).remove(id)) by {
        assert forall|k: Seq<char>|
            stale(heard(m, id, heard_at), now, timeout).contains(k) == stale(
                m,
                now,
                timeout,
            ).remove(id).contains(k) by {}
    }
}

/// Taking one device out makes no other stale, so that none is left once all that
/// were stale have been taken out.
pub proof fn law_removal_makes_none_stale<C>(
    m: Devices<C>,
    id: Seq<char>,
    now: u128,
    timeout: u128,
)
    ensures
        stale(removed(m, id), now, timeout) == stale(m, now, timeout).remove(id),
{
    assert(stale(removed(m, id), now, timeout) =~= stale(m, now, timeout).remove(id)) by {
        assert forall|k: Seq<char>|
            stale(removed(m, id), now, timeout).contains(k) == stale(
                m,
                now,
                timeout,
            ).remove(id).contains(k) by {}
    }
}

/// A registration counts as being heard of: the device is not stale before the timeout
/// has passed since, it is stale afterwards, and no other device becomes stale by it.
pub proof fn law_registered_is_heard<C>(
    m: Devices<C>,
    id: Seq<char>,
    connection: C,
    registered_at: u128,
    now: u128,
    timeout: u128,
)
    ensures
        now - registered_at <= timeout ==> stale(
            registered(m, id, connection, registered_at),
            now,
            timeout,
        ) == stale(m, now, timeout).remove(id),
        now - registered_at > timeout ==> stale(
            registered(m, id, connection, registered_at),
            now,
            timeout,
        ) == stale(m, now, timeout).insert(id),
{
    let on = registered(m, id, connection, registered_at);
    if now - registered_at <= timeout {
        assert(stale(on, now, timeout) =~= stale(m, now, timeout).remove(id)) by {
            assert forall|k: Seq<char>|
                stale(on, now, timeout).contains(k) == stale(m, now, timeout).remove(id).contains(
                    k,
                ) by {}
        }
    } else {
        assert(stale(on, now, timeout) =~= stale(m, now, timeout).insert(id)) by {
            assert forall|k: Seq<char>|
                stale(on, now, timeout).contains(k) == stale(m, now, timeout).insert(id).contains(
                    k,
                ) by {}
        }
    }
}

/// A device that is not heard of again becomes stale once the timeout has passed, and
/// stays so.
pub proof fn law_silence_makes_stale<C>(
    m: Devices<C>,
    id: Seq<char>,
    heard_at: u128,
    now: u128,
    later: u128,
    timeout: u128,
)
    requires
        m.contains_key(id),
        now - heard_at > timeout,
        later >= now,
    ensures
        stale(heard(m, id, heard_at), now, timeout).contains(id),
        stale(heard(m, id, heard_at), now, timeout).subset_of(
            stale(heard(m, id, heard_at), later, timeout),
        ),
{
}

/// A device that registers is reached over the connection that it registered on, also if
/// it was online before; every other device keeps its connection and the time at which it
/// was heard of.
pub proof fn law_registered_is_reached<C>(
    m: Devices<C>,
    id: Seq<char>,
    connection: C,
    now: u128,
    other: Seq<char>,
)
    ensures
        registered(m, id, connection, now).contains_key(id),
        registered(m, id, connection, now)[id].connection == connection,
        other != id ==> registered(m, id, connection, now).contains_key(other) == m.contains_key(
            other,
        ),
        other != id && m.contains_key(other) ==> registered(m, id, connection, now)[other].connection
            == m[other].connection && registered(m, id, connection, now)[other].last_heartbeat
            == m[other].last_heartbeat,
{
}

/// No other operation changes who is online, over which connection a device is reached,
/// or, but for being heard of, when it was heard of last.
pub proof fn law_devices_keep_their_connections<C>(
    m: Devices<C>,
    a: Seq<char>,
    b: Seq<char>,
    now: u128,
    c: Seq<char>,
)
    requires
        m.contains_key(c),
    ensures
        pair_refusal(m, a, b) is None ==> paired(m, a, b).contains_key(c) && paired(m, a, b)[c]
            == (Device { paired_with: paired(m, a, b)[c].paired_with, ..m[c] }),
        disconnected(m, a).contains_key(c) && disconnected(m, a)[c] == (Device {
            paired_with: disconnected(m, a)[c].paired_with,
            ..m[c]
        }),
        heard(m, a, now).contains_key(c) && heard(m, a, now)[c] == (Device {
            last_heartbeat: heard(m, a, now)[c].last_heartbeat,
            ..m[c]
        }),
        c != a ==> heard(m, a, now)[c] == m[c],
        c != a ==> removed(m, a).contains_key(c) && removed(m, a)[c] == (Device {
            paired_with: removed(m, a)[c].paired_with,
            ..m[c]
        }),
{
}

/// Ending a pairing frees the device and its peer, and leaves the pairings of all others
/// as they were; ending none changes nothing.
pub proof fn law_disconnect_frees_both<C>(m: Devices<C>, a: Seq<char>, c: Seq<char>)
    requires
        mutual(m),
    ensures
        peer_of(disconnected(m, a), a) is None,
        peer_of(m, a) matches Some(b) ==> peer_of(disconnected(m, a), b) is None,
        c != a && peer_of(m, a) != Some(c) ==> peer_of(disconnected(m, a), c) == peer_of(m, c),
        peer_of(m, a) is None ==> disconnected(m, a) == m,
        disconnected(m, a).dom() == m.dom(),
{
    assert(disconnected(m, a).dom() =~= m.dom());
    if peer_of(m, a) is None {
        assert(disconnected(m, a) =~= m);
    }
}

/// A refusal tells why: a device that is paired, or asks for one that is, hears so; all
/// others hear that a device is missing, and so does one that asks for itself.
pub proof fn law_refusal_tells_why<C>(m: Devices<C>, a: Seq<char>, b: Seq<char>)
    ensures
        pair_refusal(m, a, b) == Some(ErrorCode::AlreadyPaired) <==> a != b && m.contains_key(a)
            && (peer_of(m, a) is Some || peer_of(m, b) is Some),
        pair_refusal(m, a, b) == Some(ErrorCode::DeviceNotFound) <==> a == b || !m.contains_key(a)
            || (peer_of(m, a) is None && !m.contains_key(b)),
        pair_refusal(m, a, b) matches Some(code) ==> code == ErrorCode::AlreadyPaired || code
            == ErrorCode::DeviceNotFound,
{
}

/// Whoever leaves, registers again or ends a pairing, the device that was paired with it
/// is told, and nobody else is.
pub proof fn law_the_partner_is_told<C>(
    notice: Option<Notice>,
    m: Devices<C>,
    id: Seq<char>,
    reason: Seq<char>,
    other: Seq<char>,
)
    requires
        mutual(m),
        notifies_peer(notice, m, id, reason),
    ensures
        peer_of(m, other) == Some(id) <==> (notice matches Some(n) && n.to@ == other),
        notice matches Some(n) ==> m.contains_key(n.to@) && (n.message.kind matches Some(
            Type::PeerDisconnected(p),
        ) && p.reason@ == reason),
{
    if peer_of(m, other) == Some(id) {
        assert(m.contains_key(other));
    }
    if peer_of(m, id) is Some {
        assert(m.contains_key(id));
    }
}

/// Two devices that are paired reach each other over the connections that they registered
/// with; a device without a peer reaches nobody, and hears that its peer is missing.
pub proof fn law_paired_devices_reach_each_other<C>(m: Devices<C>, a: Seq<char>, b: Seq<char>)
    requires
        pair_refusal(m, a, b) is None,
    ensures
        connection_in(m, b) == Some(m[b].connection),
        peer_connection(paired(m, a, b), a) == Ok::<C, ErrorCode>(m[b].connection),
        peer_connection(paired(m, a, b), b) == Ok::<C, ErrorCode>(m[a].connection),
        peer_connection(m, a) == Err::<C, ErrorCode>(ErrorCode::DeviceNotFound),
        peer_connection(removed(paired(m, a, b), a), b) == Err::<C, ErrorCode>(
            ErrorCode::DeviceNotFound,
        ),
{
}

/// A device is found under the connection that it registered with last, and under none once
/// it has left.
pub proof fn law_devices_are_found_while_online<C>(
    m: Devices<C>,
    id: Seq<char>,
    connection: C,
    now: u128,
    other: Seq<char>,
)
    requires
        mutual(m),
    ensures
        connection_in(registered(m, id, connection, now), id) == Some(connection),
        connection_in(removed(m, id), id) is None,
        other != id ==> connection_in(removed(m, id), other) == connection_in(m, other),
        other != id ==> connection_in(registered(m, id, connection, now), other) == connection_in(
            m,
            other,
        ),
{
}

/// The peer gets the bytes that were sent: a datagram byte for byte, and an encoded message
/// as the one frame of its stream. Bytes that the transport does not take are reported as an
/// error of the relay's own.
pub proof fn law_the_peer_gets_the_bytes(bytes: Seq<u8>, taken: bool)
    requires
        bytes.len() <= frame::MAX_MSG_LEN,
    ensures
        datagram_of(bytes) == bytes,
        frame::first_frame(stream_of(bytes)) == Ok::<Option<Seq<u8>>, frame::FrameError>(
            Some(bytes),
        ),
        stream_of(bytes).len() == bytes.len() + 4,
        reported(taken) is Ok <==> taken,
        reported(false) == Err::<(), ErrorCode>(ErrorCode::Internal),
{
    frame::law_frame_round_trip(bytes, Seq::empty());
    assert(stream_of(bytes) + Seq::<u8>::empty() =~= stream_of(bytes));
}

/// Whoever is online may end a pairing, also one that there is not; whoever is not hears
/// that the device is missing, and nothing changes.
pub proof fn law_only_devices_end_pairings<C>(m: Devices<C>, id: Seq<char>)
    ensures
        disconnect_refusal(m, id) is None <==> connection_in(m, id) is Some,
        disconnect_refusal(m, id) is Some ==> disconnect_refusal(m, id) == Some(
            ErrorCode::DeviceNotFound,
        ) && disconnected(m, id) == m,
{
}

} // verus!
