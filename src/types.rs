use vstd::prelude::*;

verus! {

/// A snapshot of one sink or source of the audio service.
///
/// `index` is assigned by the service and only means something for the
/// connection it was read on; `volume` holds one value per channel.
#[derive(Debug, Clone, PartialEq, Eq)]
pub struct DeviceInfo {
    pub name: Option<String>,
    pub description: Option<String>,
    pub volume: Vec<u32>,
    pub mute: bool,
    pub index: u32,
}

/// A sink or source record as the service reports it, in plain values:
/// the per-channel volumes are the first `channels` entries of `values`.
#[derive(Debug, Clone)]
pub struct DeviceRecord {
    pub name: Option<String>,
    pub description: Option<String>,
    pub channels: u8,
    pub values: Vec<u32>,
    pub mute: bool,
    pub index: u32,
}

impl DeviceRecord {
    /// The record is well formed when it holds a value for each channel.
    pub open spec fn wf(&self) -> bool {
        self.channels as nat <= self.values@.len()
    }

    /// The per-channel volumes the record describes.
    pub open spec fn channel_volumes(&self) -> Seq<u32> {
        self.values@.take(self.channels as int)
    }
}

/// What the service reports about itself; read fresh on every probe.
#[derive(Debug, Clone)]
pub struct ServerInfo {
    /// User name of the daemon process.
    pub user_name: Option<String>,
    /// Host name the daemon is running on.
    pub host_name: Option<String>,
    /// Version string of the daemon.
    pub server_version: Option<String>,
    /// Server package name.
    pub server_name: Option<String>,
    /// Name of the default sink.
    pub default_sink_name: Option<String>,
    /// Name of the default source.
    pub default_source_name: Option<String>,
    /// A random cookie identifying this instance of the service.
    pub cookie: u32,
}

/// The two directions a device can have.
#[derive(Debug, Clone, Copy, PartialEq, Eq, Structural)]
pub enum DeviceKind {
    Sink,
    Source,
}

/// A copy of an optional string that is provably equal to the original.
pub fn copy_opt_string(o: &Option<String>) -> (r: Option<String>)
    ensures
        r == *o,
{
    match o {
        Some(s) => Some(s.clone()),
        None => None,
    }
}

/// A copy of a vector of volumes with the same contents.
pub fn copy_volumes(v: &[u32], count: usize) -> (r: Vec<u32>)
    requires
        count <= v@.len(),
    ensures
        r@ == v@.take(count as int),
{
    let mut r: Vec<u32> = Vec::new();
    let mut i: usize = 0;
    while i < count
        invariant
            count <= v@.len(),
            i <= count,
            r@ == v@.take(i as int),
        decreases count - i,
    {
        r.push(v[i]);
        i = i + 1;
        assert(r@ =~= v@.take(i as int));
    }
    r
}

impl DeviceInfo {
    /// The device a record describes: name, description, mute flag and index
    /// are taken over unchanged, and the volume vector holds exactly one
    /// entry per channel.
    pub fn from_record(rec: &DeviceRecord) -> (r: DeviceInfo)
        requires
            rec.wf(),
        ensures
            r.name == rec.name,
            r.description == rec.description,
            r.volume@ == rec.channel_volumes(),
            r.volume@.len() == rec.channels as nat,
            r.mute == rec.mute,
            r.index == rec.index,
    {
        DeviceInfo {
            name: copy_opt_string(&rec.name),
            description: copy_opt_string(&rec.description),
            volume: copy_volumes(rec.values.as_slice(), rec.channels as usize),
            mute: rec.mute,
            index: rec.index,
        }
    }
}

} // verus!
