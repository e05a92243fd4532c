//! The list of the tools.
//!
//! Each tool is advertised with its name, a description and four hints. The
//! hints inform and gate nothing; what gates is the runner.

use vstd::prelude::*;

use crate::netdiag::commands;
use crate::netdiag::commands::BUILTIN_COMMAND_COUNT;
use crate::netdiag::laws;

verus! {

/// How a tool is advertised.
#[derive(Debug, Clone, Copy)]
pub struct ToolDescriptor {
    /// The name under which the tool is called.
    pub name: &'static str,
    /// The key of the command behind it.
    pub key: &'static str,
    pub description: &'static str,
    /// A call leaves no observable trace.
    pub read_only_hint: bool,
    /// A call may destroy something.
    pub destructive_hint: bool,
    /// A second call has no further effect.
    pub idempotent_hint: bool,
    /// A call reaches beyond the unprivileged state of this host.
    pub open_world_hint: bool,
}

/// The mathematical model of a [`ToolDescriptor`].
pub struct ToolDescriptorView {
    pub name: Seq<char>,
    pub key: Seq<char>,
    pub description: Seq<char>,
    pub read_only_hint: bool,
    pub destructive_hint: bool,
    pub idempotent_hint: bool,
    pub open_world_hint: bool,
}

impl View for ToolDescriptor {
    type V = ToolDescriptorView;

    open spec fn view(&self) -> ToolDescriptorView {
        ToolDescriptorView {
            name: self.name@,
            key: self.key@,
            description: self.description@,
            read_only_hint: self.read_only_hint,
            destructive_hint: self.destructive_hint,
            idempotent_hint: self.idempotent_hint,
            open_world_hint: self.open_world_hint,
        }
    }
}

/// A tool that reads unprivileged state of this host.
pub open spec fn reading_tool(
    name: Seq<char>,
    key: Seq<char>,
    description: Seq<char>,
) -> ToolDescriptorView {
    ToolDescriptorView {
        name,
        key,
        description,
        read_only_hint: true,
        destructive_hint: false,
        idempotent_hint: true,
        open_world_hint: false,
    }
}

/// A tool that reads privileged state of the kernel.
pub open spec fn kernel_tool(
    name: Seq<char>,
    key: Seq<char>,
    description: Seq<char>,
) -> ToolDescriptorView {
    ToolDescriptorView { open_world_hint: true, ..reading_tool(name, key, description) }
}

/// A tool that puts packets on the wire or changes how an interface listens.
/// Every call has fresh effects that can be observed.
pub open spec fn wire_tool(
    name: Seq<char>,
    key: Seq<char>,
    description: Seq<char>,
) -> ToolDescriptorView {
    ToolDescriptorView {
        read_only_hint: false,
        idempotent_hint: false,
        ..kernel_tool(name, key, description)
    }
}

/// The tools, in the order of the built-in commands.
pub open spec fn catalog() -> Seq<ToolDescriptorView> {
    seq![
        reading_tool(
            "net.if_status"@,
            "if_status"@,
            "Show interface state and counters. Optionally restrict to one interface."@,
        ),
        reading_tool(
            "net.mac_lookup"@,
            "mac_table"@,
            "Look up a MAC address in the bridge forwarding database."@,
        ),
        reading_tool(
            "net.neighbors"@,
            "neighbors"@,
            "Show ARP/neighbor state. Optionally restrict to one interface."@,
        ),
        reading_tool(
            "net.routes"@,
            "routes"@,
            "Show the routing table across all routing tables."@,
        ),
        reading_tool(
            "net.addr"@,
            "addr"@,
            "Show interface addresses. Optionally restrict to one interface."@,
        ),
        reading_tool(
            "net.link_detail"@,
            "link_detail"@,
            "Show detailed link state. Optionally restrict to one interface."@,
        ),
        reading_tool(
            "net.route_get"@,
            "route_get"@,
            "Resolve the route the kernel would use for a target host."@,
        ),
        reading_tool(
            "net.rules"@,
            "rules"@,
            "Show policy routing rules."@,
        ),
        wire_tool(
            "net.ping"@,
            "ping"@,
            "[Privileged: CAP_NET_RAW] Bounded ping connectivity check against a target host."@,
        ),
        wire_tool(
            "net.traceroute"@,
            "traceroute"@,
            "[Privileged: CAP_NET_RAW] Bounded traceroute path diagnosis to a target host."@,
        ),
        reading_tool(
            "net.sockets"@,
            "sockets"@,
            "Show TCP/UDP socket state without process details."@,
        ),
        reading_tool(
            "net.dns_status"@,
            "dns_status"@,
            "Show systemd-resolved DNS state."@,
        ),
        reading_tool(
            "net.resolv_conf"@,
            "resolv_conf"@,
            "Show /etc/resolv.conf resolver configuration."@,
        ),
        reading_tool(
            "net.ethtool"@,
            "ethtool"@,
            "Show ethtool details for an interface."@,
        ),
        kernel_tool(
            "net.firewall"@,
            "firewall"@,
            "[Privileged: CAP_NET_ADMIN] Show nftables firewall ruleset."@,
        ),
        kernel_tool(
            "net.conntrack"@,
            "conntrack"@,
            "[Privileged: CAP_NET_ADMIN] Show the connection tracking table."@,
        ),
        wire_tool(
            "net.tcpdump_sample"@,
            "tcpdump_sample"@,
            "[Privileged: CAP_NET_RAW + CAP_NET_ADMIN] Capture a bounded packet sample on one interface."@,
        ),
        reading_tool(
            "net.logs"@,
            "logs"@,
            "Extract recent system log lines. Optionally restrict to one systemd unit."@,
        ),
        reading_tool(
            "sys.failed_units"@,
            "failed_units"@,
            "Show failed systemd units."@,
        ),
        reading_tool(
            "sys.service_status"@,
            "service_status"@,
            "Show bounded systemd status for one unit."@,
        ),
        kernel_tool(
            "sys.dmesg"@,
            "dmesg"@,
            "[Privileged: CAP_SYSLOG] Show kernel ring buffer messages."@,
        ),
        reading_tool(
            "sys.uptime"@,
            "uptime"@,
            "Show uptime and load average."@,
        ),
        reading_tool(
            "sys.memory"@,
            "memory"@,
            "Show memory usage summary."@,
        ),
        reading_tool(
            "sys.filesystems"@,
            "filesystems"@,
            "Show filesystem usage summary."@,
        ),
    ]
}

/// The model of a list of tools.
pub open spec fn tools_view(tools: Seq<ToolDescriptor>) -> Seq<ToolDescriptorView> {
    Seq::new(tools.len(), |i: int| tools[i]@)
}

fn reading(name: &'static str, key: &'static str, description: &'static str) -> (t: ToolDescriptor)
    ensures
        t@ == reading_tool(name@, key@, description@),
{
    ToolDescriptor {
        name,
        key,
        description,
        read_only_hint: true,
        destructive_hint: false,
        idempotent_hint: true,
        open_world_hint: false,
    }
}

fn kernel(name: &'static str, key: &'static str, description: &'static str) -> (t: ToolDescriptor)
    ensures
        t@ == kernel_tool(name@, key@, description@),
{
    ToolDescriptor {
        name,
        key,
        description,
        read_only_hint: true,
        destructive_hint: false,
        idempotent_hint: true,
        open_world_hint: true,
    }
}

fn wire(name: &'static str, key: &'static str, description: &'static str) -> (t: ToolDescriptor)
    ensures
        t@ == wire_tool(name@, key@, description@),
{
    ToolDescriptor {
        name,
        key,
        description,
        read_only_hint: false,
        destructive_hint: false,
        idempotent_hint: false,
        open_world_hint: true,
    }
}

/// Lists the tools. Every tool is listed, whether or not the operator's
/// filters let it run.
pub fn tools() -> (list: Vec<ToolDescriptor>)
    ensures
        tools_view(list@) == catalog(),
{
    let mut list: Vec<ToolDescriptor> = Vec::new();
    list.push(
        reading(
            "net.if_status",
            "if_status",
            "Show interface state and counters. Optionally restrict to one interface.",
        ),
    );
    list.push(
        reading(
            "net.mac_lookup",
            "mac_table",
            "Look up a MAC address in the bridge forwarding database.",
        ),
    );
    list.push(
        reading(
            "net.neighbors",
            "neighbors",
            "Show ARP/neighbor state. Optionally restrict to one interface.",
        ),
    );
    list.push(
        reading(
            "net.routes",
            "routes",
            "Show the routing table across all routing tables.",
        ),
    );
    list.push(
        reading(
            "net.addr",
            "addr",
            "Show interface addresses. Optionally restrict to one interface.",
        ),
    );
    list.push(
        reading(
            "net.link_detail",
            "link_detail",
            "Show detailed link state. Optionally restrict to one interface.",
        ),
    );
    list.push(
        reading(
            "net.route_get",
            "route_get",
            "Resolve the route the kernel would use for a target host.",
        ),
    );
    list.push(
        reading(
            "net.rules",
            "rules",
            "Show policy routing rules.",
        ),
    );
    list.push(
        wire(
            "net.ping",
            "ping",
            "[Privileged: CAP_NET_RAW] Bounded ping connectivity check against a target host.",
        ),
    );
    list.push(
        wire(
            "net.traceroute",
            "traceroute",
            "[Privileged: CAP_NET_RAW] Bounded traceroute path diagnosis to a target host.",
        ),
    );
    list.push(
        reading(
            "net.sockets",
            "sockets",
            "Show TCP/UDP socket state without process details.",
        ),
    );
    list.push(
        reading(
            "net.dns_status",
            "dns_status",
            "Show systemd-resolved DNS state.",
        ),
    );
    list.push(
        reading(
            "net.resolv_conf",
            "resolv_conf",
            "Show /etc/resolv.conf resolver configuration.",
        ),
    );
    list.push(
        reading(
            "net.ethtool",
            "ethtool",
            "Show ethtool details for an interface.",
        ),
    );
    list.push(
        kernel(
            "net.firewall",
            "firewall",
            "[Privileged: CAP_NET_ADMIN] Show nftables firewall ruleset.",
        ),
    );
    list.push(
        kernel(
            "net.conntrack",
            "conntrack",
            "[Privileged: CAP_NET_ADMIN] Show the connection tracking table.",
        ),
    );
    list.push(
        wire(
            "net.tcpdump_sample",
            "tcpdump_sample",
            "[Privileged: CAP_NET_RAW + CAP_NET_ADMIN] Capture a bounded packet sample on one interface.",
        ),
    );
    list.push(
        reading(
            "net.logs",
            "logs",
            "Extract recent system log lines. Optionally restrict to one systemd unit.",
        ),
    );
    list.push(
        reading(
            "sys.failed_units",
            "failed_units",
            "Show failed systemd units.",
        ),
    );
    list.push(
        reading(
            "sys.service_status",
            "service_status",
            "Show bounded systemd status for one unit.",
        ),
    );
    list.push(
        kernel(
            "sys.dmesg",
            "dmesg",
            "[Privileged: CAP_SYSLOG] Show kernel ring buffer messages.",
        ),
    );
    list.push(
        reading(
            "sys.uptime",
            "uptime",
            "Show uptime and load average.",
        ),
    );
    list.push(
        reading(
            "sys.memory",
            "memory",
            "Show memory usage summary.",
        ),
    );
    list.push(
        reading(
            "sys.filesystems",
            "filesystems",
            "Show filesystem usage summary.",
        ),
    );
    assert(tools_view(list@) =~= catalog());
    list
}

/// The mark at the head of the description of a privileged tool.
pub const PRIVILEGED_MARK: &'static str = "[Privileged:";

/// There is one tool for each built-in command, in the same order.
pub proof fn law_one_tool_per_command(i: int)
    requires
        0 <= i < BUILTIN_COMMAND_COUNT,
    ensures
        catalog().len() == BUILTIN_COMMAND_COUNT,
        catalog()[i].key == commands::builtin_table()[i].0,
{
    if i == 0 {
        assert(catalog()[0].key == commands::builtin_table()[0].0);
    } else if i == 1 {
        assert(catalog()[1].key == commands::builtin_table()[1].0);
    } else if i == 2 {
        assert(catalog()[2].key == commands::builtin_table()[2].0);
    } else if i == 3 {
        assert(catalog()[3].key == commands::builtin_table()[3].0);
    } else if i == 4 {
        assert(catalog()[4].key == commands::builtin_table()[4].0);
    } else if i == 5 {
        assert(catalog()[5].key == commands::builtin_table()[5].0);
    } else if i == 6 {
        assert(catalog()[6].key == commands::builtin_table()[6].0);
    } else if i == 7 {
        assert(catalog()[7].key == commands::builtin_table()[7].0);
    } else if i == 8 {
        assert(catalog()[8].key == commands::builtin_table()[8].0);
    } else if i == 9 {
        assert(catalog()[9].key == commands::builtin_table()[9].0);
    } else if i == 10 {
        assert(catalog()[10].key == commands::builtin_table()[10].0);
    } else if i == 11 {
        assert(catalog()[11].key == commands::builtin_table()[11].0);
    } else if i == 12 {
        assert(catalog()[12].key == commands::builtin_table()[12].0);
    } else if i == 13 {
        assert(catalog()[13].key == commands::builtin_table()[13].0);
    } else if i == 14 {
        assert(catalog()[14].key == commands::builtin_table()[14].0);
    } else if i == 15 {
        assert(catalog()[15].key == commands::builtin_table()[15].0);
    } else if i == 16 {
        assert(catalog()[16].key == commands::builtin_table()[16].0);
    } else if i == 17 {
        assert(catalog()[17].key == commands::builtin_table()[17].0);
    } else if i == 18 {
        assert(catalog()[18].key == commands::builtin_table()[18].0);
    } else if i == 19 {
        assert(catalog()[19].key == commands::builtin_table()[19].0);
    } else if i == 20 {
        assert(catalog()[20].key == commands::builtin_table()[20].0);
    } else if i == 21 {
        assert(catalog()[21].key == commands::builtin_table()[21].0);
    } else if i == 22 {
        assert(catalog()[22].key == commands::builtin_table()[22].0);
    } else {
        assert(catalog()[23].key == commands::builtin_table()[23].0);
    }
}

/// No two tools share a name.
pub proof fn law_tool_names_distinct(a: int, b: int)
    requires
        0 <= a < b < BUILTIN_COMMAND_COUNT,
    ensures
        catalog()[a].name != catalog()[b].name,
{
    lemma_name_places();
    assert(name_place(name_mark(catalog()[a].name)) == a);
    assert(name_place(name_mark(catalog()[b].name)) == b);
}

// A number that tells the names of the tools apart: length, first letter and
// first letter behind the dot.
spec fn name_mark(name: Seq<char>) -> int {
    16384 * name.len() + 128 * (name[0] as int) + name[4] as int
}

spec fn name_place(mark: int) -> int {
    if mark == 227177 {
        0
    } else if mark == 243565 {
        1
    } else if mark == 227182 {
        2
    } else if mark == 178034 {
        3
    } else if mark == 145249 {
        4
    } else if mark == 259948 {
        5
    } else if mark == 227186 {
        6
    } else if mark == 161650 {
        7
    } else if mark == 145264 {
        8
    } else if mark == 243572 {
        9
    } else if mark == 194419 {
        10
    } else if mark == 243556 {
        11
    } else if mark == 259954 {
        12
    } else if mark == 194405 {
        13
    } else if mark == 210790 {
        14
    } else if mark == 227171 {
        15
    } else if mark == 309108 {
        16
    } else if mark == 145260 {
        17
    } else if mark == 276966 {
        18
    } else if mark == 309747 {
        19
    } else if mark == 162276 {
        20
    } else if mark == 178677 {
        21
    } else if mark == 178669 {
        22
    } else if mark == 260582 {
        23
    } else {
        -1
    }
}

proof fn lemma_name_places()
    ensures
        catalog().len() == BUILTIN_COMMAND_COUNT,
        forall|i: int|
            0 <= i < BUILTIN_COMMAND_COUNT ==> name_place(
                name_mark((#[trigger] catalog()[i]).name),
            ) == i,
{
    let list = catalog();
    reveal_strlit("net.if_status");
    assert(name_mark(list[0].name) == 227177);
    reveal_strlit("net.mac_lookup");
    assert(name_mark(list[1].name) == 243565);
    reveal_strlit("net.neighbors");
    assert(name_mark(list[2].name) == 227182);
    reveal_strlit("net.routes");
    assert(name_mark(list[3].name) == 178034);
    reveal_strlit("net.addr");
    assert(name_mark(list[4].name) == 145249);
    reveal_strlit("net.link_detail");
    assert(name_mark(list[5].name) == 259948);
    reveal_strlit("net.route_get");
    assert(name_mark(list[6].name) == 227186);
    reveal_strlit("net.rules");
    assert(name_mark(list[7].name) == 161650);
    reveal_strlit("net.ping");
    assert(name_mark(list[8].name) == 145264);
    reveal_strlit("net.traceroute");
    assert(name_mark(list[9].name) == 243572);
    reveal_strlit("net.sockets");
    assert(name_mark(list[10].name) == 194419);
    reveal_strlit("net.dns_status");
    assert(name_mark(list[11].name) == 243556);
    reveal_strlit("net.resolv_conf");
    assert(name_mark(list[12].name) == 259954);
    reveal_strlit("net.ethtool");
    assert(name_mark(list[13].name) == 194405);
    reveal_strlit("net.firewall");
    assert(name_mark(list[14].name) == 210790);
    reveal_strlit("net.conntrack");
    assert(name_mark(list[15].name) == 227171);
    reveal_strlit("net.tcpdump_sample");
    assert(name_mark(list[16].name) == 309108);
    reveal_strlit("net.logs");
    assert(name_mark(list[17].name) == 145260);
    reveal_strlit("sys.failed_units");
    assert(name_mark(list[18].name) == 276966);
    reveal_strlit("sys.service_status");
    assert(name_mark(list[19].name) == 309747);
    reveal_strlit("sys.dmesg");
    assert(name_mark(list[20].name) == 162276);
    reveal_strlit("sys.uptime");
    assert(name_mark(list[21].name) == 178677);
    reveal_strlit("sys.memory");
    assert(name_mark(list[22].name) == 178669);
    reveal_strlit("sys.filesystems");
    assert(name_mark(list[23].name) == 260582);
}

/// A privileged tool says so: it alone has the mark at the head of its
/// description, and it alone has the open-world hint.
pub proof fn law_privileged_tools_marked(i: int)
    requires
        0 <= i < BUILTIN_COMMAND_COUNT,
    ensures
        catalog()[i].open_world_hint <==> commands::is_privileged(catalog()[i].key),
        PRIVILEGED_MARK@.is_prefix_of(catalog()[i].description)
            <==> commands::is_privileged(catalog()[i].key),
{
    law_one_tool_per_command(i);
    laws::law_privileged_commands(i);
    reveal_strlit("[Privileged:");
    let mark = PRIVILEGED_MARK@;
    assert(mark.len() == 12 && mark[0] == '[');
    let description = catalog()[i].description;
    if i == 0 {
        reveal_strlit("Show interface state and counters. Optionally restrict to one interface.");
        assert(description[0] == 'S');
    } else if i == 1 {
        reveal_strlit("Look up a MAC address in the bridge forwarding database.");
        assert(description[0] == 'L');
    } else if i == 2 {
        reveal_strlit("Show ARP/neighbor state. Optionally restrict to one interface.");
        assert(description[0] == 'S');
    } else if i == 3 {
        reveal_strlit("Show the routing table across all routing tables.");
        assert(description[0] == 'S');
    } else if i == 4 {
        reveal_strlit("Show interface addresses. Optionally restrict to one interface.");
        assert(description[0] == 'S');
    } else if i == 5 {
        reveal_strlit("Show detailed link state. Optionally restrict to one interface.");
        assert(description[0] == 'S');
    } else if i == 6 {
        reveal_strlit("Resolve the route the kernel would use for a target host.");
        assert(description[0] == 'R');
    } else if i == 7 {
        reveal_strlit("Show policy routing rules.");
        assert(description[0] == 'S');
    } else if i == 8 {
        reveal_strlit("[Privileged: CAP_NET_RAW] Bounded ping connectivity check against a target host.");
        assert(description.subrange(0, 12) =~= mark);
    } else if i == 9 {
        reveal_strlit("[Privileged: CAP_NET_RAW] Bounded traceroute path diagnosis to a target host.");
        assert(description.subrange(0, 12) =~= mark);
    } else if i == 10 {
        reveal_strlit("Show TCP/UDP socket state without process details.");
        assert(description[0] == 'S');
    } else if i == 11 {
        reveal_strlit("Show systemd-resolved DNS state.");
        assert(description[0] == 'S');
    } else if i == 12 {
        reveal_strlit("Show /etc/resolv.conf resolver configuration.");
        assert(description[0] == 'S');
    } else if i == 13 {
        reveal_strlit("Show ethtool details for an interface.");
        assert(description[0] == 'S');
    } else if i == 14 {
        reveal_strlit("[Privileged: CAP_NET_ADMIN] Show nftables firewall ruleset.");
        assert(description.subrange(0, 12) =~= mark);
    } else if i == 15 {
        reveal_strlit("[Privileged: CAP_NET_ADMIN] Show the connection tracking table.");
        assert(description.subrange(0, 12) =~= mark);
    } else if i == 16 {
        reveal_strlit("[Privileged: CAP_NET_RAW + CAP_NET_ADMIN] Capture a bounded packet sample on one interface.");
        assert(description.subrange(0, 12) =~= mark);
    } else if i == 17 {
        reveal_strlit("Extract recent system log lines. Optionally restrict to one systemd unit.");
        assert(description[0] == 'E');
    } else if i == 18 {
        reveal_strlit("Show failed systemd units.");
        assert(description[0] == 'S');
    } else if i == 19 {
        reveal_strlit("Show bounded systemd status for one unit.");
        assert(description[0] == 'S');
    } else if i == 20 {
        reveal_strlit("[Privileged: CAP_SYSLOG] Show kernel ring buffer messages.");
        assert(description.subrange(0, 12) =~= mark);
    } else if i == 21 {
        reveal_strlit("Show uptime and load average.");
        assert(description[0] == 'S');
    } else if i == 22 {
        reveal_strlit("Show memory usage summary.");
        assert(description[0] == 'S');
    } else {
        reveal_strlit("Show filesystem usage summary.");
        assert(description[0] == 'S');
    }
}

/// No tool is destructive, and a tool is read-only if and only if it is
/// idempotent; the tools that are neither are privileged.
pub proof fn law_hints_consistent(i: int)
    requires
        0 <= i < BUILTIN_COMMAND_COUNT,
    ensures
        !catalog()[i].destructive_hint,
        catalog()[i].read_only_hint == catalog()[i].idempotent_hint,
        catalog()[i].read_only_hint <==> catalog()[i].key != "ping"@ && catalog()[i].key
            != "traceroute"@ && catalog()[i].key != "tcpdump_sample"@,
        !catalog()[i].read_only_hint ==> catalog()[i].open_world_hint,
{
    law_one_tool_per_command(i);
    let ping: int = 8;
    let traceroute: int = 9;
    let tcpdump_sample: int = 16;
    if i != ping {
        if i < ping {
            laws::law_builtin_keys_distinct(i, ping);
        } else {
            laws::law_builtin_keys_distinct(ping, i);
        }
    }
    if i != traceroute {
        if i < traceroute {
            laws::law_builtin_keys_distinct(i, traceroute);
        } else {
            laws::law_builtin_keys_distinct(traceroute, i);
        }
    }
    if i != tcpdump_sample {
        if i < tcpdump_sample {
            laws::law_builtin_keys_distinct(i, tcpdump_sample);
        } else {
            laws::law_builtin_keys_distinct(tcpdump_sample, i);
        }
    }
}

/// Whether `tool` is advertised under `name` for the command `key`, in the
/// words of `description`.
pub open spec fn is_advertised(
    tool: ToolDescriptor,
    name: Seq<char>,
    key: Seq<char>,
    description: Seq<char>,
) -> bool {
    tool.name@ == name && tool.key@ == key && tool.description@ == description
}

/// The list has one entry per tool, in this order and in these words.
pub proof fn law_tools_advertised(list: Vec<ToolDescriptor>)
    requires
        call_ensures(tools, (), list),
    ensures
        list@.len() == 24,
        is_advertised(
            list@[0],
            "net.if_status"@,
            "if_status"@,
            "Show interface state and counters. Optionally restrict to one interface."@,
        ),
        is_advertised(
            list@[1],
            "net.mac_lookup"@,
            "mac_table"@,
            "Look up a MAC address in the bridge forwarding database."@,
        ),
        is_advertised(
            list@[2],
            "net.neighbors"@,
            "neighbors"@,
            "Show ARP/neighbor state. Optionally restrict to one interface."@,
        ),
        is_advertised(
            list@[3],
            "net.routes"@,
            "routes"@,
            "Show the routing table across all routing tables."@,
        ),
        is_advertised(
            list@[4],
            "net.addr"@,
            "addr"@,
            "Show interface addresses. Optionally restrict to one interface."@,
        ),
        is_advertised(
            list@[5],
            "net.link_detail"@,
            "link_detail"@,
            "Show detailed link state. Optionally restrict to one interface."@,
        ),
        is_advertised(
            list@[6],
            "net.route_get"@,
            "route_get"@,
            "Resolve the route the kernel would use for a target host."@,
        ),
        is_advertised(
            list@[7],
            "net.rules"@,
            "rules"@,
            "Show policy routing rules."@,
        ),
        is_advertised(
            list@[8],
            "net.ping"@,
            "ping"@,
            "[Privileged: CAP_NET_RAW] Bounded ping connectivity check against a target host."@,
        ),
        is_advertised(
            list@[9],
            "net.traceroute"@,
            "traceroute"@,
            "[Privileged: CAP_NET_RAW] Bounded traceroute path diagnosis to a target host."@,
        ),
        is_advertised(
            list@[10],
            "net.sockets"@,
            "sockets"@,
            "Show TCP/UDP socket state without process details."@,
        ),
        is_advertised(
            list@[11],
            "net.dns_status"@,
            "dns_status"@,
            "Show systemd-resolved DNS state."@,
        ),
        is_advertised(
            list@[12],
            "net.resolv_conf"@,
            "resolv_conf"@,
            "Show /etc/resolv.conf resolver configuration."@,
        ),
        is_advertised(
            list@[13],
            "net.ethtool"@,
            "ethtool"@,
            "Show ethtool details for an interface."@,
        ),
        is_advertised(
            list@[14],
            "net.firewall"@,
            "firewall"@,
            "[Privileged: CAP_NET_ADMIN] Show nftables firewall ruleset."@,
        ),
        is_advertised(
            list@[15],
            "net.conntrack"@,
            "conntrack"@,
            "[Privileged: CAP_NET_ADMIN] Show the connection tracking table."@,
        ),
        is_advertised(
            list@[16],
            "net.tcpdump_sample"@,
            "tcpdump_sample"@,
            "[Privileged: CAP_NET_RAW + CAP_NET_ADMIN] Capture a bounded packet sample on one interface."@,
        ),
        is_advertised(
            list@[17],
            "net.logs"@,
            "logs"@,
            "Extract recent system log lines. Optionally restrict to one systemd unit."@,
        ),
        is_advertised(
            list@[18],
            "sys.failed_units"@,
            "failed_units"@,
            "Show failed systemd units."@,
        ),
        is_advertised(
            list@[19],
            "sys.service_status"@,
            "service_status"@,
            "Show bounded systemd status for one unit."@,
        ),
        is_advertised(
            list@[20],
            "sys.dmesg"@,
            "dmesg"@,
            "[Privileged: CAP_SYSLOG] Show kernel ring buffer messages."@,
        ),
        is_advertised(
            list@[21],
            "sys.uptime"@,
            "uptime"@,
            "Show uptime and load average."@,
        ),
        is_advertised(
            list@[22],
            "sys.memory"@,
            "memory"@,
            "Show memory usage summary."@,
        ),
        is_advertised(
            list@[23],
            "sys.filesystems"@,
            "filesystems"@,
            "Show filesystem usage summary."@,
        ),
{
    let listed = tools_view(list@);
    assert(listed.len() == list@.len());
    assert forall|i: int| 0 <= i < 24 implies (#[trigger] list@[i])@ == catalog()[i] by {
        assert(listed[i] == list@[i]@);
    }
}

/// The hints of the listed tools: none is destructive, three of them put packets
/// on the wire and so are neither read-only nor idempotent, and six reach beyond
/// the unprivileged state of the host.
pub proof fn law_tools_hinted(list: Vec<ToolDescriptor>, i: int)
    requires
        call_ensures(tools, (), list),
        0 <= i < list@.len(),
    ensures
        ({
            let tool = list@[i];
            let on_wire = tool.key@ == "ping"@ || tool.key@ == "traceroute"@ || tool.key@
                == "tcpdump_sample"@;
            let privileged = on_wire || tool.key@ == "firewall"@ || tool.key@ == "conntrack"@
                || tool.key@ == "dmesg"@;
            &&& !tool.destructive_hint
            &&& tool.read_only_hint == !on_wire
            &&& tool.idempotent_hint == !on_wire
            &&& tool.open_world_hint == privileged
        }),
{
    let listed = tools_view(list@);
    assert(listed.len() == list@.len());
    assert(listed[i] == list@[i]@);
    law_hints_consistent(i);
    law_privileged_tools_marked(i);
    crate::netdiag::runner_laws::law_six_are_privileged(catalog()[i].key);
}

} // verus!
