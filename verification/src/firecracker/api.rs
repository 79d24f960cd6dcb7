//! Requests to the API of a Firecracker process, and its answers.

use crate::codec::{
    field_views, json_object, json_object_text, json_one_field, json_read, json_texts, json_value,
    lossy_text, text_or_error, utf8_lossy, JsonPlain, JsonPlainModel, JsonStepModel,
};
use crate::numbers::{decimal, parse_u16, parsed_nat, u64_text};
use crate::text::{
    cat4, first_line, first_text_at, has_text, second_word, split_once_text, take_first_line,
    take_second_word,
};
use vstd::prelude::*;

verus! {

#[derive(Debug, Clone, PartialEq, Eq)]
pub struct ApiResponse {
    pub status_code: u16,
    pub body: String,
}

/// Something that is asked of a Firecracker process.
#[derive(Debug, Clone, PartialEq, Eq)]
pub enum VmCall {
    MachineConfig { vcpu_count: u8, mem_size_mib: u32 },
    BootSource { kernel_image_path: String, boot_args: String },
    Rootfs { path_on_host: String, is_read_only: bool },
    Vsock { guest_cid: u32, uds_path: String },
    Network { tap_name: String },
    Start,
    CreateSnapshot { mem_file_path: String, snapshot_path: String },
    LoadSnapshot { mem_file_path: String, snapshot_path: String },
}

/// The same as a value.
pub enum VmCallModel {
    MachineConfig { vcpu_count: u8, mem_size_mib: u32 },
    BootSource { kernel_image_path: Seq<char>, boot_args: Seq<char> },
    Rootfs { path_on_host: Seq<char>, is_read_only: bool },
    Vsock { guest_cid: u32, uds_path: Seq<char> },
    Network { tap_name: Seq<char> },
    Start,
    CreateSnapshot { mem_file_path: Seq<char>, snapshot_path: Seq<char> },
    LoadSnapshot { mem_file_path: Seq<char>, snapshot_path: Seq<char> },
}

impl View for VmCall {
    type V = VmCallModel;

    open spec fn view(&self) -> VmCallModel {
        match self {
            VmCall::MachineConfig { vcpu_count, mem_size_mib } => VmCallModel::MachineConfig {
                vcpu_count: *vcpu_count,
                mem_size_mib: *mem_size_mib,
            },
            VmCall::BootSource { kernel_image_path, boot_args } => VmCallModel::BootSource {
                kernel_image_path: kernel_image_path@,
                boot_args: boot_args@,
            },
            VmCall::Rootfs { path_on_host, is_read_only } => VmCallModel::Rootfs {
                path_on_host: path_on_host@,
                is_read_only: *is_read_only,
            },
            VmCall::Vsock { guest_cid, uds_path } => VmCallModel::Vsock {
                guest_cid: *guest_cid,
                uds_path: uds_path@,
            },
            VmCall::Network { tap_name } => VmCallModel::Network { tap_name: tap_name@ },
            VmCall::Start => VmCallModel::Start,
            VmCall::CreateSnapshot { mem_file_path, snapshot_path } => VmCallModel::CreateSnapshot {
                mem_file_path: mem_file_path@,
                snapshot_path: snapshot_path@,
            },
            VmCall::LoadSnapshot { mem_file_path, snapshot_path } => VmCallModel::LoadSnapshot {
                mem_file_path: mem_file_path@,
                snapshot_path: snapshot_path@,
            },
        }
    }
}

/// The path of the API that a call goes to.
pub open spec fn call_path(call: VmCallModel) -> Seq<char> {
    match call {
        VmCallModel::MachineConfig { vcpu_count: _, mem_size_mib: _ } => "/machine-config"@,
        VmCallModel::BootSource { kernel_image_path: _, boot_args: _ } => "/boot-source"@,
        VmCallModel::Rootfs { path_on_host: _, is_read_only: _ } => "/drives/rootfs"@,
        VmCallModel::Vsock { guest_cid: _, uds_path: _ } => "/vsock"@,
        VmCallModel::Network { tap_name: _ } => "/network-interfaces/eth0"@,
        VmCallModel::Start => "/actions"@,
        VmCallModel::CreateSnapshot { mem_file_path: _, snapshot_path: _ } => "/snapshot/create"@,
        VmCallModel::LoadSnapshot { mem_file_path: _, snapshot_path: _ } => "/snapshot/load"@,
    }
}

pub open spec fn text_field(key: Seq<char>, value: Seq<char>) -> (Seq<char>, JsonPlainModel) {
    (key, JsonPlainModel::Text(value))
}

pub open spec fn number_field(key: Seq<char>, value: u64) -> (Seq<char>, JsonPlainModel) {
    (key, JsonPlainModel::Number(value))
}

pub open spec fn flag_field(key: Seq<char>, value: bool) -> (Seq<char>, JsonPlainModel) {
    (key, JsonPlainModel::Flag(value))
}

/// The fields of the object that a call carries.
pub open spec fn call_fields(call: VmCallModel) -> Seq<(Seq<char>, JsonPlainModel)> {
    match call {
        VmCallModel::MachineConfig { vcpu_count, mem_size_mib } => seq![
            number_field("vcpu_count"@, vcpu_count as u64),
            number_field("mem_size_mib"@, mem_size_mib as u64),
            flag_field("track_dirty_pages"@, true),
        ],
        VmCallModel::BootSource { kernel_image_path, boot_args } => seq![
            text_field("kernel_image_path"@, kernel_image_path),
            text_field("boot_args"@, boot_args),
        ],
        VmCallModel::Rootfs { path_on_host, is_read_only } => seq![
            text_field("drive_id"@, "rootfs"@),
            text_field("path_on_host"@, path_on_host),
            flag_field("is_root_device"@, true),
            flag_field("is_read_only"@, is_read_only),
        ],
        VmCallModel::Vsock { guest_cid, uds_path } => seq![
            text_field("vsock_id"@, "agent"@),
            number_field("guest_cid"@, guest_cid as u64),
            text_field("uds_path"@, uds_path),
        ],
        VmCallModel::Network { tap_name } => seq![
            text_field("iface_id"@, "eth0"@),
            text_field("host_dev_name"@, tap_name),
            text_field("guest_mac"@, "06:00:AC:10:00:02"@),
        ],
        VmCallModel::Start => seq![text_field("action_type"@, "InstanceStart"@)],
        VmCallModel::CreateSnapshot { mem_file_path, snapshot_path } => seq![
            text_field("snapshot_type"@, "Full"@),
            text_field("snapshot_path"@, snapshot_path),
            text_field("mem_file_path"@, mem_file_path),
        ],
        VmCallModel::LoadSnapshot { mem_file_path, snapshot_path } => seq![
            text_field("snapshot_path"@, snapshot_path),
            text_field("mem_file_path"@, mem_file_path),
            flag_field("enable_diff_snapshots"@, false),
            flag_field("resume_vm"@, true),
        ],
    }
}

fn text_value(s: &str) -> (r: JsonPlain)
    ensures
        r@ == JsonPlainModel::Text(s@),
{
    JsonPlain::Text(s.to_owned())
}

impl VmCall {
    pub fn path(&self) -> (r: &'static str)
        ensures
            r@ == call_path(self@),
    {
        match self {
            VmCall::MachineConfig { vcpu_count: _, mem_size_mib: _ } => "/machine-config",
            VmCall::BootSource { kernel_image_path: _, boot_args: _ } => "/boot-source",
            VmCall::Rootfs { path_on_host: _, is_read_only: _ } => "/drives/rootfs",
            VmCall::Vsock { guest_cid: _, uds_path: _ } => "/vsock",
            VmCall::Network { tap_name: _ } => "/network-interfaces/eth0",
            VmCall::Start => "/actions",
            VmCall::CreateSnapshot { mem_file_path: _, snapshot_path: _ } => "/snapshot/create",
            VmCall::LoadSnapshot { mem_file_path: _, snapshot_path: _ } => "/snapshot/load",
        }
    }

    fn fields(&self) -> (r: Vec<(&'static str, JsonPlain)>)
        ensures
            field_views(r@) == call_fields(self@),
    {
        let r = match self {
            VmCall::MachineConfig { vcpu_count, mem_size_mib } => vec![
                ("vcpu_count", JsonPlain::Number(*vcpu_count as u64)),
                ("mem_size_mib", JsonPlain::Number(*mem_size_mib as u64)),
                ("track_dirty_pages", JsonPlain::Flag(true)),
            ],
            VmCall::BootSource { kernel_image_path, boot_args } => vec![
                ("kernel_image_path", text_value(kernel_image_path.as_str())),
                ("boot_args", text_value(boot_args.as_str())),
            ],
            VmCall::Rootfs { path_on_host, is_read_only } => vec![
                ("drive_id", text_value("rootfs")),
                ("path_on_host", text_value(path_on_host.as_str())),
                ("is_root_device", JsonPlain::Flag(true)),
                ("is_read_only", JsonPlain::Flag(*is_read_only)),
            ],
            VmCall::Vsock { guest_cid, uds_path } => vec![
                ("vsock_id", text_value("agent")),
                ("guest_cid", JsonPlain::Number(*guest_cid as u64)),
                ("uds_path", text_value(uds_path.as_str())),
            ],
            VmCall::Network { tap_name } => vec![
                ("iface_id", text_value("eth0")),
                ("host_dev_name", text_value(tap_name.as_str())),
                ("guest_mac", text_value("06:00:AC:10:00:02")),
            ],
            VmCall::Start => vec![("action_type", text_value("InstanceStart"))],
            VmCall::CreateSnapshot { mem_file_path, snapshot_path } => vec![
                ("snapshot_type", text_value("Full")),
                ("snapshot_path", text_value(snapshot_path.as_str())),
                ("mem_file_path", text_value(mem_file_path.as_str())),
            ],
            VmCall::LoadSnapshot { mem_file_path, snapshot_path } => vec![
                ("snapshot_path", text_value(snapshot_path.as_str())),
                ("mem_file_path", text_value(mem_file_path.as_str())),
                ("enable_diff_snapshots", JsonPlain::Flag(false)),
                ("resume_vm", JsonPlain::Flag(true)),
            ],
        };
        assert(field_views(r@) =~= call_fields(self@));
        r
    }

    /// The object that a call carries, as JSON.
    pub fn body(&self) -> (r: Result<String, String>)
        ensures
            text_or_error(r) == json_object_text(call_fields(self@)),
            r is Ok,
    {
        json_object(&self.fields())
    }

    /// The text that goes over the socket.
    pub fn request(&self) -> (r: Result<String, String>)
        ensures
            match json_object_text(call_fields(self@)) {
                Ok(body) => r matches Ok(text) && text@ == http_request("PUT"@, call_path(self@), body),
                Err(m) => r matches Err(e) && e@ == m,
            },
            r is Ok,
    {
        match self.body() {
            Ok(body) => Ok(write_request("PUT", self.path(), body.as_str())),
            Err(e) => Err(e),
        }
    }
}

/// A request: its first line, its header, an empty line and its body.
pub open spec fn http_request(method: Seq<char>, path: Seq<char>, body: Seq<char>) -> Seq<char> {
    method + " "@ + path
        + " HTTP/1.1\r\nHost: localhost\r\nAccept: application/json\r\nContent-Type: application/json\r\nContent-Length: "@
        + decimal(vstd::utf8::encode_utf8(body).len()) + "\r\nConnection: close\r\n\r\n"@ + body
}

pub fn write_request(method: &str, path: &str, body: &str) -> (r: String)
    ensures
        r@ == http_request(method@, path@, body@),
{
    let length = u64_text(body.as_bytes().len() as u64);
    let head = cat4(
        method,
        " ",
        path,
        " HTTP/1.1\r\nHost: localhost\r\nAccept: application/json\r\nContent-Type: application/json\r\nContent-Length: ",
    );
    cat4(head.as_str(), length.as_str(), "\r\nConnection: close\r\n\r\n", body)
}

/// The status of an answer whose header is this.
pub open spec fn status_of(head: Seq<char>) -> Result<int, crate::numbers::IntError> {
    parsed_nat(second_word(first_line(head)), 65535)
}

/// The answer that a text holds: the number in its first line, and what follows the first
/// empty line.
pub fn parse_http_text(text: &str) -> (r: Result<ApiResponse, String>)
    ensures
        !has_text(text@, "\r\n\r\n"@) ==> (r matches Err(e) && e@
            == "invalid HTTP response from firecracker"@),
        forall|k: int| #[trigger]
            first_text_at(text@, "\r\n\r\n"@, k) ==> match status_of(text@.take(k)) {
                Ok(n) => r matches Ok(a) && a.status_code == n && a.body@ == text@.skip(k + 4),
                Err(_) => r matches Err(e) && e@ == "missing HTTP status code"@,
            },
{
    proof {
        reveal_strlit("\r\n\r\n");
        assert("\r\n\r\n"@.len() == 4);
    }
    match split_once_text(text, "\r\n\r\n") {
        None => {
            assert forall|k: int| !(#[trigger] first_text_at(text@, "\r\n\r\n"@, k)) by {
                if first_text_at(text@, "\r\n\r\n"@, k) {
                    assert(crate::text::stands_at(text@, "\r\n\r\n"@, k));
                }
            }
            Err("invalid HTTP response from firecracker".to_owned())
        },
        Some((head, body)) => {
            let ghost at = head@.len() as int;
            proof {
                assert(text@.take(at) =~= head@);
                assert(text@.skip(at + 4) =~= body@);
                assert forall|k: int| #[trigger] first_text_at(text@, "\r\n\r\n"@, k) implies k
                    == at by {
                    assert(crate::text::stands_at(text@, "\r\n\r\n"@, k));
                    assert(crate::text::stands_at(text@, "\r\n\r\n"@, at));
                }
            }
            let line = take_first_line(head.as_str());
            let word = take_second_word(line.as_str());
            match parse_u16(word.as_str()) {
                Ok(status_code) => Ok(ApiResponse { status_code, body }),
                Err(_) => Err("missing HTTP status code".to_owned()),
            }
        },
    }
}

/// The answer that bytes hold.
pub fn parse_http_response(raw: &[u8]) -> (r: Result<ApiResponse, String>)
    ensures
        !has_text(utf8_lossy(raw@), "\r\n\r\n"@) ==> (r matches Err(e) && e@
            == "invalid HTTP response from firecracker"@),
        forall|k: int| #[trigger]
            first_text_at(utf8_lossy(raw@), "\r\n\r\n"@, k) ==> match status_of(
                utf8_lossy(raw@).take(k),
            ) {
                Ok(n) => r matches Ok(a) && a.status_code == n && a.body@ == utf8_lossy(raw@).skip(
                    k + 4,
                ),
                Err(_) => r matches Err(e) && e@ == "missing HTTP status code"@,
            },
{
    let text = lossy_text(raw);
    parse_http_text(text.as_str())
}

/// A status from 400 on is a failure.
pub fn ensure_success(response: &ApiResponse) -> (r: Result<(), String>)
    ensures
        response.status_code < 400 ==> r is Ok,
        response.status_code >= 400 ==> (r matches Err(e) && e@
            == "firecracker api failed with status "@ + decimal(response.status_code as nat) + ": "@
            + response.body@),
{
    if response.status_code >= 400 {
        let code = u64_text(response.status_code as u64);
        return Err(
            cat4(
                "firecracker api failed with status ",
                code.as_str(),
                ": ",
                response.body.as_str(),
            ),
        );
    }
    Ok(())
}

/// What a request for a description of the machine comes to: the JSON value that the body holds,
/// or an object with the body itself where it holds none.
pub fn describe_instance(response: ApiResponse) -> (r: Result<serde_json::Value, String>)
    ensures
        response.status_code < 400 ==> (r matches Ok(value) && json_texts(value) == match json_read(
            vstd::utf8::encode_utf8(response.body@),
        ) {
            Ok(texts) => texts,
            Err(_) => map![seq![JsonStepModel::Key("raw"@)] => response.body@],
        }),
        response.status_code >= 400 ==> (r matches Err(e) && e@
            == "firecracker describe instance failed: "@ + decimal(response.status_code as nat)
            + " "@ + response.body@),
{
    if response.status_code >= 400 {
        let code = u64_text(response.status_code as u64);
        return Err(
            cat4(
                "firecracker describe instance failed: ",
                code.as_str(),
                " ",
                response.body.as_str(),
            ),
        );
    }
    match json_value(response.body.as_str().as_bytes()) {
        Ok(value) => Ok(value),
        Err(_) => Ok(json_one_field("raw", response.body.as_str())),
    }
}

} // verus!
