//! The program of the name server that stands beside a sandbox with an allowlist.

use vstd::prelude::*;

verus! {

/// Answers for the names of the allowlist, and says of all others that they do not exist.
pub const ALLOWLIST_DNS_SCRIPT: &'static str = r#"import base64
import json
import os
import socket


def load_allowlist():
    raw = os.environ.get("HB_ALLOWLIST_B64", "")
    if not raw:
        return []
    try:
        decoded = base64.b64decode(raw).decode("utf-8")
        values = json.loads(decoded)
    except Exception:
        return []
    return [str(v).lower() for v in values if isinstance(v, str) and v]


ALLOWLIST = load_allowlist()
UPSTREAM = os.environ.get("HB_DNS_UPSTREAM", "1.1.1.1")
UPSTREAM_ADDR = (UPSTREAM, 53)


def allows(host):
    host = host.lower()
    if not host:
        return False
    for entry in ALLOWLIST:
        if host == entry:
            return True
    return False


def parse_qname(packet):
    if len(packet) < 12:
        return ""
    idx = 12
    labels = []
    while idx < len(packet):
        length = packet[idx]
        idx += 1
        if length == 0:
            break
        if idx + length > len(packet):
            return ""
        labels.append(packet[idx:idx + length].decode("ascii", "ignore"))
        idx += length
    return ".".join(labels).lower()


def nxdomain(packet):
    if len(packet) < 12:
        return packet
    qdcount = packet[4:6]
    question = packet[12:]
    return packet[0:2] + b"\x81\x83" + qdcount + b"\x00\x00\x00\x00\x00\x00" + question


server = socket.socket(socket.AF_INET, socket.SOCK_DGRAM)
server.bind(("0.0.0.0", 53))
upstream = socket.socket(socket.AF_INET, socket.SOCK_DGRAM)
upstream.settimeout(2.0)

while True:
    try:
        packet, peer = server.recvfrom(4096)
    except Exception:
        continue

    host = parse_qname(packet)
    if not allows(host):
        try:
            server.sendto(nxdomain(packet), peer)
        except Exception:
            pass
        continue

    try:
        upstream.sendto(packet, UPSTREAM_ADDR)
        response, _ = upstream.recvfrom(4096)
        server.sendto(response, peer)
    except Exception:
        try:
            server.sendto(nxdomain(packet), peer)
        except Exception:
            pass
"#;

/// Starts the program from the environment.
pub const ALLOWLIST_DNS_BOOTSTRAP: &'static str =
    "import base64,os;exec(base64.b64decode(os.environ['HB_DNS_SCRIPT_B64']).decode('utf-8'))";

} // verus!
