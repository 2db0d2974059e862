//! The info line builder: from a selection of fields and a snapshot of host
//! metrics to the ordered block of rendered "label: value" lines, framed by
//! the header, its divider, and the fixed colour rows.
use vstd::prelude::*;
use vstd::string::*;
use crate::duration::{duration_text, format_duration};
use crate::gpu::{
    lemma_gpu_select_dedups, gpu_select, select_gpu_indices, sel_wf, GpuAdapter,
};
use crate::style::{
    green_of, paint_green, paint_yellow, strip_styles, stripped_of, styled, yellow_of,
};
use crate::text::{dec_of, lemma_repeated_len, repeat_str, repeated, u64_to_string};

verus! {

/// Which fields the display shows. Each toggle stands alone; `show_all` forces
/// every one of them on. The desktop environment and package count toggles are
/// part of the surface but no line is wired to them.
#[derive(Clone, Copy, PartialEq, Eq, Structural, Debug)]
pub struct DisplayConfig {
    pub show_distro: bool,
    pub show_desktop_env: bool,
    pub show_device_name: bool,
    pub show_architecture: bool,
    pub show_uptime: bool,
    pub show_packages: bool,
    pub show_motherboard: bool,
    pub show_motherboard_manufacturer: bool,
    pub show_cpu: bool,
    pub show_cpu_vendor: bool,
    pub show_cpu_frequency: bool,
    pub show_cpu_usage: bool,
    pub show_gpu: bool,
    pub show_memory: bool,
    pub show_swap: bool,
    pub show_ip: bool,
    pub show_all: bool,
}

/// One point-in-time read of the host, reduced to plain values. Fields that a
/// lookup may fail to produce are optional; the builder renders the absent
/// ones as a literal "Unknown". The processor usage percentage is carried
/// already rendered to two decimals, since it comes out of floating-point
/// sampling that the caller performs.
pub struct MetricsSnapshot {
    pub username: String,
    pub hostname: Option<String>,
    pub distro: String,
    pub device_name: String,
    pub architecture: String,
    pub uptime_seconds: Option<u64>,
    pub motherboard_name: Option<String>,
    pub motherboard_manufacturer: Option<String>,
    pub cpu_brand: String,
    pub cpu_vendor: String,
    pub cpu_frequency_mhz: Option<u16>,
    pub cpu_usage_percent: String,
    pub gpus: Vec<GpuAdapter>,
    pub used_memory: u64,
    pub total_memory: u64,
    pub used_swap: u64,
    pub total_swap: u64,
    pub local_ip: Option<String>,
}

/// What the chosen human-size convention renders a byte count as.
pub uninterp spec fn human_size_of(bytes: u64) -> Seq<char>;

/// Relies on humansize::format_size, under the default options with two
/// decimal places: the rendering depends on the byte count alone.
#[verifier::external_body]
fn human_size(bytes: u64) -> (r: String)
    ensures
        r@ == human_size_of(bytes),
{
    humansize::format_size(bytes, humansize::FormatSizeOptions::default().decimal_places(2))
}

/// What a maximum clock speed in megahertz displays as.
pub uninterp spec fn freq_display_of(mhz: u16) -> Seq<char>;

/// Relies on frequency_unit::Frequency: from_mhz scales megahertz to hertz,
/// and the display picks the widest fitting unit; the rendering depends on the
/// megahertz value alone.
#[verifier::external_body]
fn format_frequency(mhz: u16) -> (r: String)
    ensures
        r@ == freq_display_of(mhz),
{
    frequency_unit::Frequency::from_mhz(mhz).to_string()
}

/// The rendered form of one fact: the label painted in the accent colour, a
/// colon and a space, then the value.
pub open spec fn entry_text(label: Seq<char>, value: Seq<char>) -> Seq<char> {
    yellow_of(label) + ": "@ + value
}

/// Renders one "label: value" line.
pub fn get_entry_formatted(label: &str, value: &str) -> (r: String)
    ensures
        r@ == entry_text(label@, value@),
{
    let mut out = paint_yellow(label);
    out.append(": ");
    out.append(value);
    out
}

/// The header: the user name, joined to the host name when one is obtainable,
/// each painted in the accent colour.
pub open spec fn header_text(m: MetricsSnapshot) -> Seq<char> {
    match m.hostname {
        Some(h) => green_of(m.username@) + "@"@ + green_of(h@),
        None => green_of(m.username@),
    }
}

/// The divider under the header: one dash per visible header character.
pub open spec fn divider_text(m: MetricsSnapshot) -> Seq<char> {
    repeated("-"@, stripped_of(header_text(m)).len())
}

/// An optional looked-up value; an absent one reads "Unknown".
pub open spec fn opt_text(v: Option<String>) -> Seq<char> {
    match v {
        Some(s) => s@,
        None => "Unknown"@,
    }
}

/// The uptime value: the formatted duration, or "Unknown" when no uptime was
/// obtainable.
pub open spec fn uptime_text(v: Option<u64>) -> Seq<char> {
    match v {
        Some(secs) => duration_text(secs as nat),
        None => "Unknown"@,
    }
}

/// The clock speed value, or "Unknown" when the hardware table gave none.
pub open spec fn freq_text(v: Option<u16>) -> Seq<char> {
    match v {
        Some(mhz) => freq_display_of(mhz),
        None => "Unknown"@,
    }
}

/// A usage value: "{used} used of {total} total" in human-readable sizes.
pub open spec fn usage_text(used: u64, total: u64) -> Seq<char> {
    human_size_of(used) + " used of "@ + human_size_of(total) + " total"@
}

/// The GPU line for entry `k` of the selection: a one-based index in the
/// label, the adapter's name as the value.
pub open spec fn gpu_line(gpus: Seq<GpuAdapter>, sel: Seq<usize>, k: int) -> Seq<char> {
    entry_text("GPU "@ + dec_of((k + 1) as nat), gpus[sel[k] as int].name@)
}

/// One line per surviving adapter, in selection order.
pub open spec fn gpu_lines(gpus: Seq<GpuAdapter>) -> Seq<Seq<char>> {
    Seq::new(gpu_select(gpus).len(), |k: int| gpu_line(gpus, gpu_select(gpus), k))
}

/// One colour-swatch block.
pub open spec fn color_block(code: Seq<char>) -> Seq<char> {
    styled(code, "\u{2588}\u{2588}\u{2588}"@)
}

/// The decorative row of eight bright-palette blocks.
pub open spec fn bright_row() -> Seq<char> {
    color_block("\u{1b}[91m"@) + color_block("\u{1b}[92m"@) + color_block("\u{1b}[94m"@)
        + color_block("\u{1b}[96m"@) + color_block("\u{1b}[93m"@) + color_block("\u{1b}[95m"@)
        + color_block("\u{1b}[90m"@) + color_block("\u{1b}[97m"@)
}

/// The decorative row of eight normal-palette blocks.
pub open spec fn normal_row() -> Seq<char> {
    color_block("\u{1b}[31m"@) + color_block("\u{1b}[32m"@) + color_block("\u{1b}[34m"@)
        + color_block("\u{1b}[36m"@) + color_block("\u{1b}[33m"@) + color_block("\u{1b}[35m"@)
        + color_block("\u{1b}[30m"@) + color_block("\u{1b}[37m"@)
}

/// A block of zero or one lines, by a toggle.
pub open spec fn seq_if(cond: bool, line: Seq<char>) -> Seq<Seq<char>> {
    if cond {
        seq![line]
    } else {
        Seq::<Seq<char>>::empty()
    }
}

/// The whole block of info lines, in the fixed declared order: header and
/// divider first, then one line per enabled field, then a blank separator and
/// the two colour rows.
pub open spec fn info_lines_text(cfg: DisplayConfig, m: MetricsSnapshot) -> Seq<Seq<char>> {
    seq![header_text(m), divider_text(m)] + seq_if(
        cfg.show_distro || cfg.show_all,
        entry_text("Distro"@, m.distro@),
    ) + seq_if(cfg.show_device_name || cfg.show_all, entry_text("Device"@, m.device_name@))
        + seq_if(cfg.show_architecture || cfg.show_all, entry_text("Arch"@, m.architecture@))
        + seq_if(cfg.show_uptime || cfg.show_all, entry_text("Uptime"@, uptime_text(m.uptime_seconds)))
        + seq_if(
        cfg.show_motherboard || cfg.show_all,
        entry_text("Motherboard Name"@, opt_text(m.motherboard_name)),
    ) + seq_if(
        cfg.show_motherboard_manufacturer || cfg.show_all,
        entry_text("Motherboard Manufacturer"@, opt_text(m.motherboard_manufacturer)),
    ) + seq_if(cfg.show_cpu || cfg.show_all, entry_text("CPU Name"@, m.cpu_brand@)) + seq_if(
        cfg.show_cpu_vendor || cfg.show_all,
        entry_text("CPU Vendor"@, m.cpu_vendor@),
    ) + seq_if(
        cfg.show_cpu_frequency || cfg.show_all,
        entry_text("CPU Frequency"@, freq_text(m.cpu_frequency_mhz)),
    ) + seq_if(
        cfg.show_cpu_usage || cfg.show_all,
        entry_text("CPU Usage"@, m.cpu_usage_percent@ + "%"@),
    ) + (if cfg.show_gpu || cfg.show_all {
        gpu_lines(m.gpus@)
    } else {
        Seq::<Seq<char>>::empty()
    }) + seq_if(
        cfg.show_memory || cfg.show_all,
        entry_text("Memory Usage"@, usage_text(m.used_memory, m.total_memory)),
    ) + seq_if(
        cfg.show_swap || cfg.show_all,
        entry_text("Swap Usage"@, usage_text(m.used_swap, m.total_swap)),
    ) + seq_if(cfg.show_ip || cfg.show_all, entry_text("Local Address"@, opt_text(m.local_ip)))
        + seq_if(true, Seq::<char>::empty()) + seq_if(true, bright_row()) + seq_if(
        true,
        normal_row(),
    )
}

fn push_if(lines: &mut Vec<String>, cond: bool, line: String)
    ensures
        final(lines).deep_view() == old(lines).deep_view() + seq_if(cond, line@),
{
    let ghost pre = lines.deep_view();
    if cond {
        lines.push(line);
        proof {
            assert(lines.deep_view() =~~= pre + seq_if(true, line@));
        }
    } else {
        proof {
            assert(lines.deep_view() =~~= pre + seq_if(false, line@));
        }
    }
}

fn opt_str<'a>(v: &'a Option<String>) -> (r: &'a str)
    ensures
        r@ == opt_text(*v),
{
    match v.as_ref() {
        Some(s) => s.as_str(),
        None => "Unknown",
    }
}

fn color_block_str(code: &str) -> (r: String)
    ensures
        r@ == color_block(code@),
{
    let mut b = code.to_owned();
    b.append("\u{2588}\u{2588}\u{2588}");
    b.append("\u{1b}[0m");
    b
}

fn color_row(bright: bool) -> (r: String)
    ensures
        bright ==> r@ == bright_row(),
        !bright ==> r@ == normal_row(),
{
    let mut out = String::new();
    if bright {
        out.append(color_block_str("\u{1b}[91m").as_str());
        out.append(color_block_str("\u{1b}[92m").as_str());
        out.append(color_block_str("\u{1b}[94m").as_str());
        out.append(color_block_str("\u{1b}[96m").as_str());
        out.append(color_block_str("\u{1b}[93m").as_str());
        out.append(color_block_str("\u{1b}[95m").as_str());
        out.append(color_block_str("\u{1b}[90m").as_str());
        out.append(color_block_str("\u{1b}[97m").as_str());
        proof {
            assert(out@ =~= bright_row());
        }
    } else {
        out.append(color_block_str("\u{1b}[31m").as_str());
        out.append(color_block_str("\u{1b}[32m").as_str());
        out.append(color_block_str("\u{1b}[34m").as_str());
        out.append(color_block_str("\u{1b}[36m").as_str());
        out.append(color_block_str("\u{1b}[33m").as_str());
        out.append(color_block_str("\u{1b}[35m").as_str());
        out.append(color_block_str("\u{1b}[30m").as_str());
        out.append(color_block_str("\u{1b}[37m").as_str());
        proof {
            assert(out@ =~= normal_row());
        }
    }
    out
}

fn uptime_value_str(v: &Option<u64>) -> (r: String)
    ensures
        r@ == uptime_text(*v),
{
    match v.as_ref() {
        Some(secs) => format_duration(*secs),
        None => "Unknown".to_owned(),
    }
}

fn freq_value_str(v: &Option<u16>) -> (r: String)
    ensures
        r@ == freq_text(*v),
{
    match v.as_ref() {
        Some(mhz) => format_frequency(*mhz),
        None => "Unknown".to_owned(),
    }
}

fn usage_value_str(used: u64, total: u64) -> (r: String)
    ensures
        r@ == usage_text(used, total),
{
    let mut value = human_size(used);
    value.append(" used of ");
    let total_str = human_size(total);
    value.append(total_str.as_str());
    value.append(" total");
    value
}

fn push_gpu_lines(lines: &mut Vec<String>, enabled: bool, gpus: &Vec<GpuAdapter>)
    ensures
        final(lines).deep_view() == old(lines).deep_view() + (if enabled {
            gpu_lines(gpus@)
        } else {
            Seq::<Seq<char>>::empty()
        }),
{
    let ghost base = lines.deep_view();
    if !enabled {
        proof {
            assert(base + Seq::<Seq<char>>::empty() =~= base);
        }
        return ;
    }
    let sel = select_gpu_indices(gpus);
    proof {
        lemma_gpu_select_dedups(gpus@);
        assert(gpu_lines(gpus@).subrange(0, 0) =~= Seq::<Seq<char>>::empty());
        assert(base + gpu_lines(gpus@).subrange(0, 0) =~= base);
    }
    let mut k: usize = 0;
    while k < sel.len()
        invariant
            k <= sel@.len(),
            sel@ == gpu_select(gpus@),
            sel_wf(gpus@, sel@, gpus@.len() as int),
            gpu_lines(gpus@).len() == sel@.len(),
            lines.deep_view() == base + gpu_lines(gpus@).subrange(0, k as int),
        decreases sel@.len() - k,
    {
        let mut label = "GPU ".to_owned();
        let index = u64_to_string((k as u64) + 1);
        label.append(index.as_str());
        let line = get_entry_formatted(label.as_str(), gpus[sel[k]].name.as_str());
        proof {
            assert(line@ == gpu_line(gpus@, sel@, k as int));
            assert(gpu_lines(gpus@)[k as int] == gpu_line(gpus@, gpu_select(gpus@), k as int));
        }
        push_if(lines, true, line);
        proof {
            assert((base + gpu_lines(gpus@).subrange(0, k as int)) + seq_if(
                true,
                gpu_lines(gpus@)[k as int],
            ) =~~= base + gpu_lines(gpus@).subrange(0, k + 1));
        }
        k += 1;
    }
    proof {
        assert(gpu_lines(gpus@).subrange(0, sel@.len() as int) =~= gpu_lines(gpus@));
    }
}

/// Builds the info block: header, divider, one line per enabled field in the
/// fixed declared order, then the blank separator and the two colour rows.
#[verifier::rlimit(100)]
pub fn build_info_lines(cfg: &DisplayConfig, m: &MetricsSnapshot) -> (r: Vec<String>)
    ensures
        r.deep_view() == info_lines_text(*cfg, *m),
{
    let mut lines: Vec<String> = Vec::new();

    let header = match m.hostname.as_ref() {
        Some(h) => {
            let mut s = paint_green(m.username.as_str());
            s.append("@");
            let host = paint_green(h.as_str());
            s.append(host.as_str());
            s
        },
        None => paint_green(m.username.as_str()),
    };
    let header_len = strip_styles(header.as_str()).as_str().unicode_len();
    proof {
        assert(header@ == header_text(*m));
    }
    lines.push(header);
    lines.push(repeat_str("-", header_len));
    let ghost model: Seq<Seq<char>> = seq![header_text(*m), divider_text(*m)];
    proof {
        assert(lines.deep_view() =~~= model);
    }

    push_if(
        &mut lines,
        cfg.show_distro || cfg.show_all,
        get_entry_formatted("Distro", m.distro.as_str()),
    );
    proof {
        model = model + seq_if(cfg.show_distro || cfg.show_all, entry_text("Distro"@, m.distro@));
    }

    push_if(
        &mut lines,
        cfg.show_device_name || cfg.show_all,
        get_entry_formatted("Device", m.device_name.as_str()),
    );
    proof {
        model = model + seq_if(
            cfg.show_device_name || cfg.show_all,
            entry_text("Device"@, m.device_name@),
        );
    }

    push_if(
        &mut lines,
        cfg.show_architecture || cfg.show_all,
        get_entry_formatted("Arch", m.architecture.as_str()),
    );
    proof {
        model = model + seq_if(
            cfg.show_architecture || cfg.show_all,
            entry_text("Arch"@, m.architecture@),
        );
    }

    let uptime_value = uptime_value_str(&m.uptime_seconds);
    push_if(
        &mut lines,
        cfg.show_uptime || cfg.show_all,
        get_entry_formatted("Uptime", uptime_value.as_str()),
    );
    proof {
        model = model + seq_if(
            cfg.show_uptime || cfg.show_all,
            entry_text("Uptime"@, uptime_text(m.uptime_seconds)),
        );
    }

    push_if(
        &mut lines,
        cfg.show_motherboard || cfg.show_all,
        get_entry_formatted("Motherboard Name", opt_str(&m.motherboard_name)),
    );
    proof {
        model = model + seq_if(
            cfg.show_motherboard || cfg.show_all,
            entry_text("Motherboard Name"@, opt_text(m.motherboard_name)),
        );
    }

    push_if(
        &mut lines,
        cfg.show_motherboard_manufacturer || cfg.show_all,
        get_entry_formatted("Motherboard Manufacturer", opt_str(&m.motherboard_manufacturer)),
    );
    proof {
        model = model + seq_if(
            cfg.show_motherboard_manufacturer || cfg.show_all,
            entry_text("Motherboard Manufacturer"@, opt_text(m.motherboard_manufacturer)),
        );
    }

    push_if(
        &mut lines,
        cfg.show_cpu || cfg.show_all,
        get_entry_formatted("CPU Name", m.cpu_brand.as_str()),
    );
    proof {
        model = model + seq_if(cfg.show_cpu || cfg.show_all, entry_text("CPU Name"@, m.cpu_brand@));
    }

    push_if(
        &mut lines,
        cfg.show_cpu_vendor || cfg.show_all,
        get_entry_formatted("CPU Vendor", m.cpu_vendor.as_str()),
    );
    proof {
        model = model + seq_if(
            cfg.show_cpu_vendor || cfg.show_all,
            entry_text("CPU Vendor"@, m.cpu_vendor@),
        );
    }

    let freq_value = freq_value_str(&m.cpu_frequency_mhz);
    push_if(
        &mut lines,
        cfg.show_cpu_frequency || cfg.show_all,
        get_entry_formatted("CPU Frequency", freq_value.as_str()),
    );
    proof {
        model = model + seq_if(
            cfg.show_cpu_frequency || cfg.show_all,
            entry_text("CPU Frequency"@, freq_text(m.cpu_frequency_mhz)),
        );
    }

    let mut usage_value = m.cpu_usage_percent.clone();
    usage_value.append("%");
    push_if(
        &mut lines,
        cfg.show_cpu_usage || cfg.show_all,
        get_entry_formatted("CPU Usage", usage_value.as_str()),
    );
    proof {
        model = model + seq_if(
            cfg.show_cpu_usage || cfg.show_all,
            entry_text("CPU Usage"@, m.cpu_usage_percent@ + "%"@),
        );
    }

    push_gpu_lines(&mut lines, cfg.show_gpu || cfg.show_all, &m.gpus);
    proof {
        model = model + (if cfg.show_gpu || cfg.show_all {
            gpu_lines(m.gpus@)
        } else {
            Seq::<Seq<char>>::empty()
        });
    }

    let memory_value = usage_value_str(m.used_memory, m.total_memory);
    push_if(
        &mut lines,
        cfg.show_memory || cfg.show_all,
        get_entry_formatted("Memory Usage", memory_value.as_str()),
    );
    proof {
        model = model + seq_if(
            cfg.show_memory || cfg.show_all,
            entry_text("Memory Usage"@, usage_text(m.used_memory, m.total_memory)),
        );
    }

    let swap_value = usage_value_str(m.used_swap, m.total_swap);
    push_if(
        &mut lines,
        cfg.show_swap || cfg.show_all,
        get_entry_formatted("Swap Usage", swap_value.as_str()),
    );
    proof {
        model = model + seq_if(
            cfg.show_swap || cfg.show_all,
            entry_text("Swap Usage"@, usage_text(m.used_swap, m.total_swap)),
        );
    }

    push_if(
        &mut lines,
        cfg.show_ip || cfg.show_all,
        get_entry_formatted("Local Address", opt_str(&m.local_ip)),
    );
    proof {
        model = model + seq_if(
            cfg.show_ip || cfg.show_all,
            entry_text("Local Address"@, opt_text(m.local_ip)),
        );
    }

    push_if(&mut lines, true, String::new());
    proof {
        model = model + seq_if(true, Seq::<char>::empty());
    }
    push_if(&mut lines, true, color_row(true));
    proof {
        model = model + seq_if(true, bright_row());
    }
    push_if(&mut lines, true, color_row(false));
    proof {
        model = model + seq_if(true, normal_row());
        assert(model == info_lines_text(*cfg, *m));
    }
    lines
}

/// The divider is exactly as long as the header shows: one dash per visible
/// header character, so the two lines align however much styling the header
/// carries.
pub proof fn lemma_divider_matches_header(m: MetricsSnapshot)
    ensures
        divider_text(m).len() == stripped_of(header_text(m)).len(),
{
    reveal_strlit("-");
    lemma_repeated_len("-"@, stripped_of(header_text(m)).len());
}

/// The global override: with "show all" set, the built block does not depend
/// on the individual toggles at all, so every optional line is present even
/// when each toggle is off, and any two configurations that both set it agree
/// line for line.
pub proof fn lemma_show_all_forces_all(
    cfg_one: DisplayConfig,
    cfg_two: DisplayConfig,
    m: MetricsSnapshot,
)
    requires
        cfg_one.show_all,
        cfg_two.show_all,
    ensures
        info_lines_text(cfg_one, m) == info_lines_text(cfg_two, m),
{
}

} // verus!
