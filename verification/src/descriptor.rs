//! The machine descriptor: a fully populated declarative description of one
//! virtual machine, built from the caller's boot image, disk list, memory
//! size and core count, and serialized as one deterministic JSON document.

use vstd::prelude::*;
use crate::emit::{
    append_bytes, append_lit, append_quoted, append_u64, dec_bytes, json_quoted, lit,
};

verus! {

/// A byte that separates path components on the host.
pub open spec fn is_sep(b: u8) -> bool {
    b == 92 || b == 47
}

/// The host-visible console channel name derived from the machine name.
pub open spec fn pipe_name_bytes(name: Seq<u8>) -> Seq<u8> {
    lit("\\\\.\\pipe\\vm_") + name + lit("_com1")
}

/// One SCSI attachment: a controller index and the backing disk image path.
pub struct ScsiAttachment {
    pub index: u64,
    pub path: Vec<u8>,
}

/// The declarative document describing one virtual machine instance.
/// Built once, serialized once, then discarded.
pub struct MachineDescriptor {
    /// Owner name of the compute system; also the machine name.
    pub owner: Vec<u8>,
    /// Schema version tag of the document.
    pub schema_major: u64,
    pub schema_minor: u64,
    /// The machine stops rather than reboots on guest reset.
    pub stop_on_reset: bool,
    /// Firmware debugger flag; never enabled here.
    pub enable_debugger: bool,
    /// Boot device path relative to the file-share root.
    pub boot_device_path: Vec<u8>,
    /// Named channel bound to serial port 0.
    pub console_pipe: Vec<u8>,
    /// Memory size in MB.
    pub memory_size_mb: u64,
    /// Processor count.
    pub processor_count: u32,
    /// Nested-virtualization exposure; always on.
    pub expose_virtualization_extensions: bool,
    /// SCSI attachments, one per supplied disk.
    pub scsi: Vec<ScsiAttachment>,
    /// Host directory exposed to the guest firmware: the boot image's folder.
    pub share_root: Vec<u8>,
    /// Name of the exposed file share.
    pub share_name: Vec<u8>,
    /// The share is read-only with single-file mapping enabled.
    pub share_read_only: bool,
    pub single_file_mapping: bool,
    /// In-process direct-mapping budget in MB; a tuning default.
    pub direct_file_mapping_mb: u64,
    /// The machine is torn down when the last handle to it closes.
    pub terminate_on_last_handle_closed: bool,
}

impl MachineDescriptor {
    /// SCSI attachment indices are a contiguous zero-based sequence.
    pub open spec fn scsi_contiguous(self) -> bool {
        forall|i: int|
            0 <= i < self.scsi@.len() ==> (#[trigger] self.scsi@[i]).index == i
    }

    /// The boot device path is relative to the file-share root: nonempty
    /// and free of path separators.
    pub open spec fn boot_path_relative(self) -> bool {
        &&& self.boot_device_path@.len() > 0
        &&& forall|i: int|
            0 <= i < self.boot_device_path@.len() ==> !is_sep(
                #[trigger] self.boot_device_path@[i],
            )
    }

    /// Internal consistency of the document: contiguous SCSI indices, a
    /// share-relative boot path, a console channel that matches the naming
    /// convention for the owner, and the fixed configuration this tool
    /// always requests.
    pub open spec fn wf(self) -> bool {
        &&& self.scsi_contiguous()
        &&& self.boot_path_relative()
        &&& self.console_pipe@ == pipe_name_bytes(self.owner@)
        &&& self.schema_major == 2
        &&& self.schema_minor == 2
        &&& self.stop_on_reset
        &&& !self.enable_debugger
        &&& self.expose_virtualization_extensions
        &&& self.share_name@ == lit("smb")
        &&& self.share_read_only
        &&& self.single_file_mapping
        &&& self.direct_file_mapping_mb == 128
        &&& self.terminate_on_last_handle_closed
    }
}

/// Copies a byte vector.
fn clone_bytes(s: &Vec<u8>) -> (r: Vec<u8>)
    ensures
        r@ == s@,
{
    let mut r: Vec<u8> = Vec::new();
    append_bytes(&mut r, s);
    r
}

/// Assembles the descriptor. The boot image path is split at its last
/// separator: the directory becomes the file-share root and the file name
/// becomes the boot device path, resolved through the share. Each disk
/// becomes a sequentially numbered SCSI attachment, and serial port 0 is
/// bound to the channel name derived from the machine name.
pub fn build_descriptor(
    name: &Vec<u8>,
    boot_image: &Vec<u8>,
    disks: &Vec<Vec<u8>>,
    memory_mb: u64,
    core_count: u32,
) -> (d: MachineDescriptor)
    requires
        boot_image@.len() > 0,
        exists|i: int| 0 <= i < boot_image@.len() && is_sep(#[trigger] boot_image@[i]),
        !is_sep(boot_image@[boot_image@.len() - 1]),
    ensures
        d.wf(),
        d.owner@ == name@,
        d.memory_size_mb == memory_mb,
        d.processor_count == core_count,
        d.console_pipe@ == pipe_name_bytes(name@),
        d.scsi@.len() == disks@.len(),
        forall|i: int|
            0 <= i < disks@.len() ==> (#[trigger] d.scsi@[i]).index == i && d.scsi@[i].path@
                == disks@[i]@,
        exists|i: int|
            #![auto]
            0 <= i < boot_image@.len() && is_sep(boot_image@[i]) && (forall|k: int|
                i < k < boot_image@.len() ==> !is_sep(boot_image@[k])) && d.share_root@
                == boot_image@.subrange(0, i) && d.boot_device_path@ == boot_image@.subrange(
                i + 1,
                boot_image@.len() as int,
            ),
{
    // Find the last path separator in the boot image path.
    let mut i: usize = 0;
    let mut last: usize = 0;
    let mut found: bool = false;
    while i < boot_image.len()
        invariant
            i <= boot_image@.len(),
            found ==> last < i && is_sep(boot_image@[last as int]) && (forall|k: int|
                last < k < i ==> !is_sep(#[trigger] boot_image@[k])),
            !found ==> forall|k: int| 0 <= k < i ==> !is_sep(#[trigger] boot_image@[k]),
        decreases boot_image@.len() - i,
    {
        let b: u8 = boot_image[i];
        if b == 92 || b == 47 {
            last = i;
            found = true;
        }
        i = i + 1;
    }
    assert(found);

    let mut share_root: Vec<u8> = Vec::new();
    let mut j: usize = 0;
    while j < last
        invariant
            j <= last,
            last < boot_image@.len(),
            share_root@ == boot_image@.subrange(0, j as int),
        decreases last - j,
    {
        let b: u8 = boot_image[j];
        share_root.push(b);
        proof {
            assert(boot_image@.subrange(0, j + 1 as int) =~= boot_image@.subrange(
                0,
                j as int,
            ).push(b));
        }
        j = j + 1;
    }

    let mut boot_file: Vec<u8> = Vec::new();
    let mut k: usize = last + 1;
    while k < boot_image.len()
        invariant
            last + 1 <= k <= boot_image@.len(),
            boot_file@ == boot_image@.subrange(last + 1 as int, k as int),
        decreases boot_image@.len() - k,
    {
        let b: u8 = boot_image[k];
        boot_file.push(b);
        proof {
            assert(boot_image@.subrange(last + 1 as int, k + 1 as int) =~= boot_image@.subrange(
                last + 1 as int,
                k as int,
            ).push(b));
        }
        k = k + 1;
    }

    // The console channel name follows the fixed convention for the owner.
    let mut console_pipe: Vec<u8> = Vec::new();
    append_lit(&mut console_pipe, "\\\\.\\pipe\\vm_");
    append_bytes(&mut console_pipe, name);
    append_lit(&mut console_pipe, "_com1");

    // One SCSI attachment per disk, indexed contiguously from zero.
    let mut scsi: Vec<ScsiAttachment> = Vec::new();
    let mut n: usize = 0;
    while n < disks.len()
        invariant
            n <= disks@.len(),
            scsi@.len() == n,
            forall|t: int|
                0 <= t < n ==> (#[trigger] scsi@[t]).index == t && scsi@[t].path@ == disks@[t]@,
        decreases disks@.len() - n,
    {
        let path = clone_bytes(&disks[n]);
        scsi.push(ScsiAttachment { index: n as u64, path });
        n = n + 1;
    }

    let d = MachineDescriptor {
        owner: clone_bytes(name),
        schema_major: 2,
        schema_minor: 2,
        stop_on_reset: true,
        enable_debugger: false,
        boot_device_path: boot_file,
        console_pipe,
        memory_size_mb: memory_mb,
        processor_count: core_count,
        expose_virtualization_extensions: true,
        scsi,
        share_root,
        share_name: {
            let mut sn: Vec<u8> = Vec::new();
            append_lit(&mut sn, "smb");
            sn
        },
        share_read_only: true,
        single_file_mapping: true,
        direct_file_mapping_mb: 128,
        terminate_on_last_handle_closed: true,
    };
    proof {
        assert(d.boot_device_path@.len() > 0);
        assert(forall|t: int|
            0 <= t < d.boot_device_path@.len() ==> !is_sep(#[trigger] d.boot_device_path@[t]));
    }
    d
}

/// One SCSI controller entry of the document: keyed `disk-<index>`, holding
/// a single virtual-disk attachment at LUN 0 backed by the given path.
pub open spec fn scsi_entry_json(a: ScsiAttachment) -> Seq<u8> {
    lit("\"disk-") + dec_bytes(a.index as nat) + lit(
        "\":{\"Attachments\":{\"0\":{\"Type\":\"VirtualDisk\",\"Path\":",
    ) + json_quoted(a.path@) + lit(",\"ReadOnly\":false}}}")
}

/// The SCSI controller entries, in index order, separated by commas.
pub open spec fn scsi_entries_json(s: Seq<ScsiAttachment>) -> Seq<u8>
    decreases s.len(),
{
    if s.len() == 0 {
        Seq::empty()
    } else if s.len() == 1 {
        scsi_entry_json(s[0])
    } else {
        scsi_entries_json(s.drop_last()) + lit(",") + scsi_entry_json(s.last())
    }
}

/// The SCSI device section; omitted entirely when there are no disks.
pub open spec fn scsi_section_json(s: Seq<ScsiAttachment>) -> Seq<u8> {
    if s.len() == 0 {
        Seq::empty()
    } else {
        lit(",\"Scsi\":{") + scsi_entries_json(s) + lit("}")
    }
}

/// The document up to and including the serial port device.
pub open spec fn head_json(d: MachineDescriptor) -> Seq<u8> {
    lit("{\"Owner\":") + json_quoted(d.owner@) + lit(",\"SchemaVersion\":{\"Major\":") + dec_bytes(
        d.schema_major as nat,
    ) + lit(",\"Minor\":") + dec_bytes(d.schema_minor as nat) + lit(
        "},\"VirtualMachine\":{\"StopOnReset\":true,\"Chipset\":{\"Uefi\":{\"BootThis\":{\"DeviceType\":\"VmbFs\",\"DevicePath\":",
    ) + json_quoted(d.boot_device_path@) + lit(
        "},\"Console\":\"ComPort1\"}},\"ComputeTopology\":{\"Memory\":{\"SizeInMB\":",
    ) + dec_bytes(d.memory_size_mb as nat) + lit(
        ",\"PinBackingPages\":false,\"ForbidSmallBackingPages\":false},\"Processor\":{\"Count\":",
    ) + dec_bytes(d.processor_count as nat) + lit(
        ",\"ExposeVirtualizationExtensions\":true}},\"Devices\":{\"ComPorts\":{\"0\":{\"NamedPipe\":",
    ) + json_quoted(d.console_pipe@) + lit("}}")
}

/// The document from the file-share device to the end.
pub open spec fn tail_json(d: MachineDescriptor) -> Seq<u8> {
    lit(",\"VirtualSmb\":{\"Shares\":[{\"Name\":\"smb\",\"Path\":") + json_quoted(d.share_root@)
        + lit(
        ",\"Options\":{\"ReadOnly\":true,\"ShareRead\":true,\"CacheIo\":true,\"TakeBackupPrivilege\":true,\"PseudoOplocks\":true,\"SingleFileMapping\":true}}],\"DirectFileMappingInMB\":",
    ) + dec_bytes(d.direct_file_mapping_mb as nat) + lit(
        "}}},\"ShouldTerminateOnLastHandleClosed\":true}",
    )
}

/// The whole serialized descriptor document.
pub open spec fn descriptor_json(d: MachineDescriptor) -> Seq<u8> {
    head_json(d) + scsi_section_json(d.scsi@) + tail_json(d)
}

/// Appends one SCSI controller entry.
fn append_scsi_entry(out: &mut Vec<u8>, a: &ScsiAttachment)
    ensures
        final(out)@ == old(out)@ + scsi_entry_json(*a),
{
    append_lit(out, "\"disk-");
    append_u64(out, a.index);
    append_lit(out, "\":{\"Attachments\":{\"0\":{\"Type\":\"VirtualDisk\",\"Path\":");
    append_quoted(out, &a.path);
    append_lit(out, ",\"ReadOnly\":false}}}");
    proof {
        assert(out@ =~= old(out)@ + scsi_entry_json(*a));
    }
}

/// Serializes the descriptor as its JSON document, byte for byte as
/// `descriptor_json` states it.
pub fn to_json(d: &MachineDescriptor) -> (out: Vec<u8>)
    ensures
        out@ == descriptor_json(*d),
{
    let mut out: Vec<u8> = Vec::new();
    append_lit(&mut out, "{\"Owner\":");
    append_quoted(&mut out, &d.owner);
    append_lit(&mut out, ",\"SchemaVersion\":{\"Major\":");
    append_u64(&mut out, d.schema_major);
    append_lit(&mut out, ",\"Minor\":");
    append_u64(&mut out, d.schema_minor);
    append_lit(
        &mut out,
        "},\"VirtualMachine\":{\"StopOnReset\":true,\"Chipset\":{\"Uefi\":{\"BootThis\":{\"DeviceType\":\"VmbFs\",\"DevicePath\":",
    );
    append_quoted(&mut out, &d.boot_device_path);
    append_lit(
        &mut out,
        "},\"Console\":\"ComPort1\"}},\"ComputeTopology\":{\"Memory\":{\"SizeInMB\":",
    );
    append_u64(&mut out, d.memory_size_mb);
    append_lit(
        &mut out,
        ",\"PinBackingPages\":false,\"ForbidSmallBackingPages\":false},\"Processor\":{\"Count\":",
    );
    append_u64(&mut out, d.processor_count as u64);
    append_lit(
        &mut out,
        ",\"ExposeVirtualizationExtensions\":true}},\"Devices\":{\"ComPorts\":{\"0\":{\"NamedPipe\":",
    );
    append_quoted(&mut out, &d.console_pipe);
    append_lit(&mut out, "}}");
    proof {
        assert(out@ =~= head_json(*d));
    }

    if d.scsi.len() > 0 {
        append_lit(&mut out, ",\"Scsi\":{");
        let ghost after_open = out@;
        let mut i: usize = 0;
        while i < d.scsi.len()
            invariant
                i <= d.scsi@.len(),
                i == 0 ==> out@ == after_open,
                i > 0 ==> out@ == after_open + scsi_entries_json(d.scsi@.subrange(0, i as int)),
                after_open == head_json(*d) + lit(",\"Scsi\":{"),
            decreases d.scsi@.len() - i,
        {
            if i > 0 {
                append_lit(&mut out, ",");
            }
            append_scsi_entry(&mut out, &d.scsi[i]);
            proof {
                let s = d.scsi@.subrange(0, i + 1 as int);
                assert(s.last() == d.scsi@[i as int]);
                assert(s.drop_last() =~= d.scsi@.subrange(0, i as int));
                assert(out@ =~= after_open + scsi_entries_json(s));
            }
            i = i + 1;
        }
        proof {
            assert(d.scsi@.subrange(0, d.scsi@.len() as int) =~= d.scsi@);
        }
        append_lit(&mut out, "}");
        proof {
            assert(out@ =~= head_json(*d) + scsi_section_json(d.scsi@));
        }
    } else {
        proof {
            assert(out@ =~= head_json(*d) + scsi_section_json(d.scsi@));
        }
    }

    append_lit(&mut out, ",\"VirtualSmb\":{\"Shares\":[{\"Name\":\"smb\",\"Path\":");
    append_quoted(&mut out, &d.share_root);
    append_lit(
        &mut out,
        ",\"Options\":{\"ReadOnly\":true,\"ShareRead\":true,\"CacheIo\":true,\"TakeBackupPrivilege\":true,\"PseudoOplocks\":true,\"SingleFileMapping\":true}}],\"DirectFileMappingInMB\":",
    );
    append_u64(&mut out, d.direct_file_mapping_mb);
    append_lit(&mut out, "}}},\"ShouldTerminateOnLastHandleClosed\":true}");
    proof {
        assert(out@ =~= descriptor_json(*d));
    }
    out
}

} // verus!
