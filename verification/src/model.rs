//! The hardware model probe: which source names the machine, and how the
//! name is cleaned up for display.

use crate::json::{json_document, nested_string, read_nested_string};
use crate::os_family::{classify_os, family_of, Family, OsFamily};
use crate::probe::{
    answer_text, command, command_with, command_with_two, file, known_or_unknown, lookup,
    or_unknown, replies, text_at, unknown, Answer, EvidenceSource, Move, Reply, Source, Step,
};
use crate::text::{
    append, append_str, chars_of, chars_or_empty, contains, contains_text, lemma_trim_keeps,
    lemma_trimmed_contains, lemma_trimmed_idempotent, lemma_without_absent,
    lemma_without_shrinks, occurs_at, opt_text, remove_all, same, slice, string_of,
    text_or_empty, trim, trimmed, without,
};
use vstd::prelude::*;

verus! {

/// The texts that firmware carries where a vendor never filled in a real
/// name, in the order in which they are taken out. Each is matched as it
/// stands, letter for letter.
pub open spec fn oem_placeholders() -> Seq<Seq<char>> {
    seq![
        "To be filled by O.E.M"@,
        "To Be Filled*"@,
        "OEM*"@,
        "Not Applicable"@,
        "System Product Name"@,
        "System Version"@,
        "Undefined"@,
        "Default string"@,
        "Not Specified"@,
        "Type1ProductConfigId"@,
        "INVALID"@,
        "All Series"@,
        "\u{fffd}"@,
    ]
}

/// `s` after the placeholders from the `k`-th on were taken out of it, one
/// after the other.
pub open spec fn strip_from(s: Seq<char>, k: int) -> Seq<char>
    decreases oem_placeholders().len() - k,
{
    if 0 <= k < oem_placeholders().len() {
        strip_from(without(s, oem_placeholders()[k]), k + 1)
    } else {
        s
    }
}

/// `s` after one pass through the placeholders: each was taken out, one
/// after the other. Taking one out can join the halves of another, so a
/// pass can leave a placeholder behind.
pub open spec fn strip_pass(s: Seq<char>) -> Seq<char> {
    strip_from(s, 0)
}

/// Whether no placeholder stands in `s`.
pub open spec fn placeholder_free(s: Seq<char>) -> bool {
    forall|k: int|
        0 <= k < oem_placeholders().len() ==> !contains_text(s, #[trigger] oem_placeholders()[k])
}

/// `s` without placeholders: the pass through the placeholders is made
/// again and again, until none is left.
pub open spec fn strip_placeholders(s: Seq<char>) -> Seq<char>
    decreases s.len(),
    via strip_terminates
{
    if placeholder_free(s) {
        s
    } else {
        strip_placeholders(strip_pass(s))
    }
}

#[via_fn]
proof fn strip_terminates(s: Seq<char>) {
    lemma_strip_from_shrinks(s, 0);
}

/// The display form of a model text: the placeholders are taken out; a
/// virtual machine's "Standard PC" is marked as KVM; what is left is trimmed,
/// and the sentinel stands for an empty rest.
pub open spec fn finished_model(raw: Seq<char>) -> Seq<char> {
    let stripped = strip_placeholders(raw);
    if contains_text(stripped, "Standard PC"@) {
        trimmed(stripped) + " (KVM)"@
    } else {
        or_unknown(trimmed(stripped))
    }
}

/// Whether cleaning up `raw` does no more than trim it.
pub open spec fn presentable(raw: Seq<char>) -> bool {
    &&& placeholder_free(raw)
    &&& !contains_text(raw, "Standard PC"@)
    &&& trimmed(raw).len() > 0
}

/// There are thirteen placeholders, and none of them is empty.
pub proof fn lemma_placeholders_nonempty()
    ensures
        oem_placeholders().len() == 13,
        forall|k: int| 0 <= k < 13 ==> (#[trigger] oem_placeholders()[k]).len() > 0,
{
    reveal_strlit("To be filled by O.E.M");
    reveal_strlit("To Be Filled*");
    reveal_strlit("OEM*");
    reveal_strlit("Not Applicable");
    reveal_strlit("System Product Name");
    reveal_strlit("System Version");
    reveal_strlit("Undefined");
    reveal_strlit("Default string");
    reveal_strlit("Not Specified");
    reveal_strlit("Type1ProductConfigId");
    reveal_strlit("INVALID");
    reveal_strlit("All Series");
    reveal_strlit("\u{fffd}");
}

proof fn lemma_strip_from_clean(s: Seq<char>, k: int)
    requires
        placeholder_free(s),
    ensures
        strip_from(s, k) == s,
    decreases oem_placeholders().len() - k,
{
    if 0 <= k < oem_placeholders().len() {
        lemma_without_absent(s, oem_placeholders()[k]);
        lemma_strip_from_clean(s, k + 1);
    }
}

proof fn lemma_strip_from_shrinks(s: Seq<char>, k: int)
    requires
        0 <= k,
    ensures
        strip_from(s, k).len() <= s.len(),
        (exists|j: int|
            k <= j < oem_placeholders().len() && contains_text(s, #[trigger] oem_placeholders()[j]))
            ==> strip_from(s, k).len() < s.len(),
    decreases oem_placeholders().len() - k,
{
    lemma_placeholders_nonempty();
    if k < oem_placeholders().len() {
        let t = without(s, oem_placeholders()[k]);
        lemma_without_shrinks(s, oem_placeholders()[k]);
        lemma_strip_from_shrinks(t, k + 1);
        if exists|j: int|
            k <= j < oem_placeholders().len() && contains_text(s, #[trigger] oem_placeholders()[j]) {
            let j = choose|j: int|
                k <= j < oem_placeholders().len() && contains_text(
                    s,
                    #[trigger] oem_placeholders()[j],
                );
            if !contains_text(s, oem_placeholders()[k]) {
                lemma_without_absent(s, oem_placeholders()[k]);
                assert(k + 1 <= j < oem_placeholders().len() && contains_text(
                    t,
                    oem_placeholders()[j],
                ));
            }
        }
    }
}

/// A pass shortens every text in which a placeholder stands.
pub proof fn lemma_pass_shrinks(s: Seq<char>)
    ensures
        strip_pass(s).len() <= s.len(),
        !placeholder_free(s) ==> strip_pass(s).len() < s.len(),
        placeholder_free(s) ==> strip_pass(s) == s,
{
    lemma_strip_from_shrinks(s, 0);
    if placeholder_free(s) {
        lemma_strip_from_clean(s, 0);
    }
}

/// Taking the placeholders out of a text that holds none changes nothing.
pub proof fn lemma_strip_clean(s: Seq<char>)
    requires
        placeholder_free(s),
    ensures
        strip_placeholders(s) == s,
{
}

/// What is left after the placeholders were taken out holds none.
pub proof fn lemma_strip_leaves_none(s: Seq<char>)
    ensures
        placeholder_free(strip_placeholders(s)),
    decreases s.len(),
{
    if !placeholder_free(s) {
        lemma_pass_shrinks(s);
        lemma_strip_leaves_none(strip_pass(s));
    }
}

/// Taking the placeholders out a second time changes nothing.
pub proof fn lemma_strip_idempotent(s: Seq<char>)
    ensures
        strip_placeholders(strip_placeholders(s)) == strip_placeholders(s),
{
    lemma_strip_leaves_none(s);
}

/// A finished model text is never empty.
pub proof fn lemma_finished_nonempty(raw: Seq<char>)
    ensures
        finished_model(raw).len() > 0,
{
    reveal_strlit("Unknown");
    reveal_strlit(" (KVM)");
}

/// A model that was shown once is shown as it is when it is the evidence
/// itself: the display form of a model text holds no placeholder, and
/// finishing it again changes nothing. The sentinel and the KVM mark are
/// not model texts; a text that holds `Standard PC` is marked each time.
pub proof fn lemma_finished_settles(raw: Seq<char>)
    requires
        finished_model(raw) != unknown(),
        !contains_text(finished_model(raw), "Standard PC"@),
    ensures
        placeholder_free(finished_model(raw)),
        trimmed(finished_model(raw)) == finished_model(raw),
        finished_model(finished_model(raw)) == finished_model(raw),
{
    let stripped = strip_placeholders(raw);
    let shown = trimmed(stripped);
    lemma_strip_leaves_none(raw);
    if contains_text(stripped, "Standard PC"@) {
        reveal_strlit("Standard PC");
        lemma_trim_keeps(stripped, "Standard PC"@);
        let i = choose|i: int| occurs_at(shown, "Standard PC"@, i);
        assert((shown + " (KVM)"@).subrange(i, i + "Standard PC"@.len()) == shown.subrange(
            i,
            i + "Standard PC"@.len(),
        ));
        assert(occurs_at(shown + " (KVM)"@, "Standard PC"@, i));
    } else {
        assert forall|k: int| 0 <= k < oem_placeholders().len() implies !contains_text(
            shown,
            #[trigger] oem_placeholders()[k],
        ) by {
            if contains_text(shown, oem_placeholders()[k]) {
                lemma_trimmed_contains(stripped, oem_placeholders()[k]);
            }
        }
        lemma_trimmed_idempotent(stripped);
    }
}

/// A presentable text is finished by trimming it.
pub proof fn lemma_finished_presentable(raw: Seq<char>)
    requires
        presentable(raw),
    ensures
        finished_model(raw) == trimmed(raw),
{
    lemma_strip_clean(raw);
}

fn placeholder(k: usize) -> (p: &'static str)
    requires
        k < 13,
    ensures
        p@ == oem_placeholders()[k as int],
{
    match k {
        0 => "To be filled by O.E.M",
        1 => "To Be Filled*",
        2 => "OEM*",
        3 => "Not Applicable",
        4 => "System Product Name",
        5 => "System Version",
        6 => "Undefined",
        7 => "Default string",
        8 => "Not Specified",
        9 => "Type1ProductConfigId",
        10 => "INVALID",
        11 => "All Series",
        _ => "\u{fffd}",
    }
}

/// One pass through the placeholders.
pub fn strip_once(model: &Vec<char>) -> (r: Vec<char>)
    ensures
        r@ == strip_pass(model@),
{
    let mut cur = slice(model, 0, model.len());
    assert(cur@ == model@);
    let mut k: usize = 0;
    while k < 13
        invariant
            k <= 13,
            oem_placeholders().len() == 13,
            strip_from(cur@, k as int) == strip_pass(model@),
        decreases 13 - k,
    {
        let p = chars_of(placeholder(k));
        cur = remove_all(&cur, &p);
        k += 1;
    }
    cur
}

/// Takes the placeholders out of `model`, until none is left.
pub fn strip_oem(model: &Vec<char>) -> (r: Vec<char>)
    ensures
        r@ == strip_placeholders(model@),
        placeholder_free(r@),
{
    let mut cur = slice(model, 0, model.len());
    assert(cur@ == model@);
    loop
        invariant
            strip_placeholders(cur@) == strip_placeholders(model@),
        decreases cur.len(),
    {
        let next = strip_once(&cur);
        proof {
            lemma_pass_shrinks(cur@);
        }
        if next.len() == cur.len() {
            return cur;
        }
        cur = next;
    }
}

/// Cleans a model text up for display.
pub fn finish_model(raw: &Vec<char>) -> (r: Vec<char>)
    ensures
        r@ == finished_model(raw@),
        r@.len() > 0,
{
    proof {
        lemma_finished_nonempty(raw@);
    }
    let stripped = strip_oem(raw);
    let mut out = trim(&stripped);
    if contains(&stripped, &chars_of("Standard PC")) {
        append_str(&mut out, " (KVM)");
        out
    } else {
        known_or_unknown(out)
    }
}

/// What was gathered about the machine's model. A field is `None` where
/// its source was absent, unreadable or never consulted.
#[derive(Debug)]
pub struct ModelEvidence {
    /// Content of the firmware's board vendor file.
    pub board_vendor: Option<String>,
    /// Content of the firmware's board name file.
    pub board_name: Option<String>,
    /// Content of the firmware's product name file.
    pub product_name: Option<String>,
    /// Content of the firmware's product version file.
    pub product_version: Option<String>,
    /// Content of the device tree's model file.
    pub devtree_model: Option<String>,
    /// Content of the local override file.
    pub override_model: Option<String>,
    /// The operating system's product name, as its version tool prints it.
    pub os_product_name: Option<String>,
    /// The machine architecture, as `uname` prints it.
    pub machine_arch: Option<String>,
    /// The hardware model identifier, as the system control tool prints it.
    pub hardware_model: Option<String>,
    /// The list of loaded kernel extensions.
    pub kernel_extensions: Option<String>,
    /// The body of the lookup service's answer, where it answered with
    /// success.
    pub lookup_response: Option<String>,
}

/// What a `ModelEvidence` stands for.
pub struct ModelFacts {
    pub board_vendor: Option<Seq<char>>,
    pub board_name: Option<Seq<char>>,
    pub product_name: Option<Seq<char>>,
    pub product_version: Option<Seq<char>>,
    pub devtree_model: Option<Seq<char>>,
    pub override_model: Option<Seq<char>>,
    pub os_product_name: Option<Seq<char>>,
    pub machine_arch: Option<Seq<char>>,
    pub hardware_model: Option<Seq<char>>,
    pub kernel_extensions: Option<Seq<char>>,
    pub lookup_response: Option<Seq<char>>,
}

impl View for ModelEvidence {
    type V = ModelFacts;

    open spec fn view(&self) -> ModelFacts {
        ModelFacts {
            board_vendor: opt_text(self.board_vendor),
            board_name: opt_text(self.board_name),
            product_name: opt_text(self.product_name),
            product_version: opt_text(self.product_version),
            devtree_model: opt_text(self.devtree_model),
            override_model: opt_text(self.override_model),
            os_product_name: opt_text(self.os_product_name),
            machine_arch: opt_text(self.machine_arch),
            hardware_model: opt_text(self.hardware_model),
            kernel_extensions: opt_text(self.kernel_extensions),
            lookup_response: opt_text(self.lookup_response),
        }
    }
}

impl ModelFacts {
    /// No evidence at all.
    pub open spec fn none() -> ModelFacts {
        ModelFacts {
            board_vendor: None,
            board_name: None,
            product_name: None,
            product_version: None,
            devtree_model: None,
            override_model: None,
            os_product_name: None,
            machine_arch: None,
            hardware_model: None,
            kernel_extensions: None,
            lookup_response: None,
        }
    }
}

impl ModelEvidence {
    /// No evidence at all.
    pub fn new() -> (e: ModelEvidence)
        ensures
            e@ == ModelFacts::none(),
    {
        ModelEvidence {
            board_vendor: None,
            board_name: None,
            product_name: None,
            product_version: None,
            devtree_model: None,
            override_model: None,
            os_product_name: None,
            machine_arch: None,
            hardware_model: None,
            kernel_extensions: None,
            lookup_response: None,
        }
    }
}

/// Two fields of a pair of files, each trimmed, with one blank between
/// them. An absent file counts as empty.
pub open spec fn joined(first: Option<Seq<char>>, second: Option<Seq<char>>) -> Seq<char> {
    trimmed(text_or_empty(first)) + seq![' '] + trimmed(text_or_empty(second))
}

/// The model text on Linux, before it is cleaned up. Of the sources that
/// are present the most authoritative one decides: the override file, then
/// the device tree, then the product files, then the board files.
pub open spec fn linux_model(f: ModelFacts) -> Seq<char> {
    if f.override_model is Some {
        trimmed(f.override_model->0)
    } else if f.devtree_model is Some {
        trimmed(f.devtree_model->0)
    } else if f.product_name is Some || f.product_version is Some {
        joined(f.product_name, f.product_version)
    } else if f.board_vendor is Some || f.board_name is Some {
        joined(f.board_vendor, f.board_name)
    } else {
        Seq::empty()
    }
}

/// Whether a product name is that of the mobile variant of the system.
pub open spec fn is_mobile(os_product_name: Option<Seq<char>>) -> bool {
    trimmed(text_or_empty(os_product_name)) == "iPhone OS"@
}

/// The identifier of the machine on Darwin: the machine architecture on
/// the mobile variant, the hardware model identifier elsewhere.
pub open spec fn machine_id(f: ModelFacts) -> Seq<char> {
    if is_mobile(f.os_product_name) {
        trimmed(text_or_empty(f.machine_arch))
    } else {
        trimmed(text_or_empty(f.hardware_model))
    }
}

/// Whether the kernel extensions show an emulated system management
/// controller, the mark of a machine that is not the vendor's own. The
/// mobile variant is never asked.
pub open spec fn is_hackintosh(f: ModelFacts) -> bool {
    &&& !is_mobile(f.os_product_name)
    &&& (contains_text(text_or_empty(f.kernel_extensions), "FakeSMC"@) || contains_text(
        text_or_empty(f.kernel_extensions),
        "VirtualSMC"@,
    ))
}

/// The machine's identifier, annotated where the machine is a hackintosh.
pub open spec fn annotated_id(f: ModelFacts) -> Seq<char> {
    if is_hackintosh(f) {
        machine_id(f) + " (Hackintosh)"@
    } else {
        machine_id(f)
    }
}

/// The model text on Darwin, before it is cleaned up: the marketing name
/// where the lookup gave one, the annotated identifier otherwise.
pub open spec fn darwin_model(f: ModelFacts, marketing_name: Option<Seq<char>>) -> Seq<char> {
    match marketing_name {
        Some(name) => name,
        None => annotated_id(f),
    }
}

/// The marketing name in the lookup service's answer: the string under
/// `product.sku` of the JSON document in its body.
pub open spec fn marketing_name_in(response: Option<Seq<char>>) -> Option<Seq<char>> {
    match response {
        Some(body) => nested_string(json_document(body), "product"@, "sku"@),
        None => None,
    }
}

/// The model text of a machine of the given family, before it is cleaned
/// up. No source is known for an unknown family.
pub open spec fn raw_model(family: Family, f: ModelFacts) -> Seq<char> {
    match family {
        Family::Linux => linux_model(f),
        Family::Darwin => darwin_model(f, marketing_name_in(f.lookup_response)),
        Family::Unknown(_) => Seq::empty(),
    }
}

/// The model of a machine of the given family, as displayed.
pub open spec fn model_text(family: Family, f: ModelFacts) -> Seq<char> {
    finished_model(raw_model(family, f))
}

/// With the board files as the only source, the model is made of the board
/// vendor and the board name; it is their trimmed concatenation where that
/// is presentable.
pub proof fn lemma_board_files_only(f: ModelFacts)
    requires
        f.board_vendor is Some || f.board_name is Some,
        f.product_name is None,
        f.product_version is None,
        f.devtree_model is None,
        f.override_model is None,
    ensures
        model_text(Family::Linux, f) == finished_model(joined(f.board_vendor, f.board_name)),
        presentable(joined(f.board_vendor, f.board_name)) ==> model_text(Family::Linux, f)
            == trimmed(joined(f.board_vendor, f.board_name)),
{
    if presentable(joined(f.board_vendor, f.board_name)) {
        lemma_finished_presentable(joined(f.board_vendor, f.board_name));
    }
}

/// Where product files are present beside board files, the product files
/// decide and the board files have no influence.
pub proof fn lemma_product_files_over_board(f: ModelFacts)
    requires
        f.product_name is Some || f.product_version is Some,
        f.devtree_model is None,
        f.override_model is None,
    ensures
        model_text(Family::Linux, f) == finished_model(joined(f.product_name, f.product_version)),
        presentable(joined(f.product_name, f.product_version)) ==> model_text(Family::Linux, f)
            == trimmed(joined(f.product_name, f.product_version)),
{
    if presentable(joined(f.product_name, f.product_version)) {
        lemma_finished_presentable(joined(f.product_name, f.product_version));
    }
}

/// A later source overrides every earlier one: the device tree overrides
/// the firmware files, and the override file overrides everything.
pub proof fn lemma_later_source_wins(f: ModelFacts)
    ensures
        f.override_model is Some ==> raw_model(Family::Linux, f) == trimmed(f.override_model->0),
        f.override_model is None && f.devtree_model is Some ==> raw_model(Family::Linux, f)
            == trimmed(f.devtree_model->0),
{
}

/// A model that was shown for one machine is shown unchanged where it is
/// the content of the override file: it holds no placeholder, and cleaning
/// it up again changes nothing. This does not hold of the sentinel, nor of
/// a text with `Standard PC`, which is marked as KVM each time.
pub proof fn lemma_shown_model_settles(f: ModelFacts, g: ModelFacts)
    requires
        model_text(Family::Linux, f) != unknown(),
        !contains_text(model_text(Family::Linux, f), "Standard PC"@),
        g.override_model == Some(model_text(Family::Linux, f)),
    ensures
        placeholder_free(model_text(Family::Linux, f)),
        model_text(Family::Linux, g) == model_text(Family::Linux, f),
{
    lemma_finished_settles(raw_model(Family::Linux, f));
}

/// Where the lookup gave no answer, the model on Darwin is made of the
/// machine's own identifier.
pub proof fn lemma_lookup_failure(f: ModelFacts)
    requires
        f.lookup_response is None,
    ensures
        model_text(Family::Darwin, f) == finished_model(annotated_id(f)),
        !is_hackintosh(f) && presentable(machine_id(f)) ==> model_text(Family::Darwin, f)
            == trimmed(machine_id(f)),
{
    if !is_hackintosh(f) && presentable(machine_id(f)) {
        lemma_finished_presentable(machine_id(f));
    }
}

fn join(first: &Option<String>, second: &Option<String>) -> (r: Vec<char>)
    ensures
        r@ == joined(opt_text(*first), opt_text(*second)),
{
    let mut out = trim(&chars_or_empty(first));
    out.push(' ');
    let tail = trim(&chars_or_empty(second));
    append(&mut out, &tail);
    out
}

/// The model text on Linux, before it is cleaned up.
pub fn linux_raw_model(evidence: &ModelEvidence) -> (r: Vec<char>)
    ensures
        r@ == linux_model(evidence@),
{
    if evidence.override_model.is_some() {
        trim(&chars_or_empty(&evidence.override_model))
    } else if evidence.devtree_model.is_some() {
        trim(&chars_or_empty(&evidence.devtree_model))
    } else if evidence.product_name.is_some() || evidence.product_version.is_some() {
        join(&evidence.product_name, &evidence.product_version)
    } else if evidence.board_vendor.is_some() || evidence.board_name.is_some() {
        join(&evidence.board_vendor, &evidence.board_name)
    } else {
        Vec::new()
    }
}

/// Whether a product name is that of the mobile variant of the system.
pub fn names_mobile_system(os_product_name: &Option<String>) -> (r: bool)
    ensures
        r == is_mobile(opt_text(*os_product_name)),
{
    same(&trim(&chars_or_empty(os_product_name)), &chars_of("iPhone OS"))
}

/// The identifier of the machine on Darwin.
pub fn darwin_machine_id(evidence: &ModelEvidence) -> (r: Vec<char>)
    ensures
        r@ == machine_id(evidence@),
{
    if names_mobile_system(&evidence.os_product_name) {
        trim(&chars_or_empty(&evidence.machine_arch))
    } else {
        trim(&chars_or_empty(&evidence.hardware_model))
    }
}

/// Whether the evidence shows a hackintosh.
pub fn shows_hackintosh(evidence: &ModelEvidence) -> (r: bool)
    ensures
        r == is_hackintosh(evidence@),
{
    if names_mobile_system(&evidence.os_product_name) {
        false
    } else {
        let extensions = chars_or_empty(&evidence.kernel_extensions);
        contains(&extensions, &chars_of("FakeSMC")) || contains(
            &extensions,
            &chars_of("VirtualSMC"),
        )
    }
}

/// The model text on Darwin, before it is cleaned up, given the marketing
/// name that the lookup found, if it found one.
pub fn darwin_raw_model(evidence: &ModelEvidence, marketing_name: &Option<String>) -> (r: Vec<
    char,
>)
    ensures
        r@ == darwin_model(evidence@, opt_text(*marketing_name)),
{
    match marketing_name {
        Some(name) => chars_of(name.as_str()),
        None => {
            let mut id = darwin_machine_id(evidence);
            if shows_hackintosh(evidence) {
                append_str(&mut id, " (Hackintosh)");
            }
            id
        },
    }
}

/// The marketing name in the lookup service's answer, if it holds one.
pub fn marketing_name(response: &Option<String>) -> (r: Option<String>)
    ensures
        opt_text(r) == marketing_name_in(opt_text(*response)),
{
    match response {
        Some(body) => read_nested_string(body.as_str(), "product", "sku"),
        None => None,
    }
}

/// The model of the machine, as displayed. `os` is the kernel's name.
pub fn get_model(os: &str, evidence: &ModelEvidence) -> (model: String)
    ensures
        model@ == model_text(family_of(os@), evidence@),
        model@.len() > 0,
{
    let raw = match classify_os(os) {
        OsFamily::Linux => linux_raw_model(evidence),
        OsFamily::Darwin => {
            let name = marketing_name(&evidence.lookup_response);
            darwin_raw_model(evidence, &name)
        },
        OsFamily::Unknown(_) => Vec::new(),
    };
    string_of(&finish_model(&raw))
}

/// The files that may name the model on Linux, from the least to the most
/// authoritative: the firmware's board and product files, the device
/// tree's model file, and the local override file.
pub open spec fn linux_model_sources() -> Seq<Source> {
    seq![
        Source::File { path: "/sys/devices/virtual/dmi/id/board_vendor"@ },
        Source::File { path: "/sys/devices/virtual/dmi/id/board_name"@ },
        Source::File { path: "/sys/devices/virtual/dmi/id/product_name"@ },
        Source::File { path: "/sys/devices/virtual/dmi/id/product_version"@ },
        Source::File { path: "/sys/firmware/devicetree/base/model"@ },
        Source::File { path: "/tmp/sysinfo/model"@ },
    ]
}

/// The address at which the lookup service tells the marketing name of
/// the machine with the given identifier.
pub open spec fn lookup_url(machine_id: Seq<char>) -> Seq<char> {
    "https://di-api.reincubate.com/v1/apple-identifiers/"@ + machine_id + "/"@
}

/// The evidence that the replies hold. On Linux the replies are those of
/// the six files, in their order. On Darwin the first is the product name;
/// on the mobile variant the machine architecture and the lookup follow,
/// elsewhere the hardware model, the kernel extensions and the lookup.
pub open spec fn model_facts(family: Family, replies: Seq<Reply>) -> ModelFacts {
    match family {
        Family::Linux => ModelFacts {
            board_vendor: text_at(replies, 0),
            board_name: text_at(replies, 1),
            product_name: text_at(replies, 2),
            product_version: text_at(replies, 3),
            devtree_model: text_at(replies, 4),
            override_model: text_at(replies, 5),
            ..ModelFacts::none()
        },
        Family::Darwin => if is_mobile(text_at(replies, 0)) {
            ModelFacts {
                os_product_name: text_at(replies, 0),
                machine_arch: text_at(replies, 1),
                lookup_response: text_at(replies, 2),
                ..ModelFacts::none()
            }
        } else {
            ModelFacts {
                os_product_name: text_at(replies, 0),
                hardware_model: text_at(replies, 1),
                kernel_extensions: text_at(replies, 2),
                lookup_response: text_at(replies, 3),
                ..ModelFacts::none()
            }
        },
        Family::Unknown(_) => ModelFacts::none(),
    }
}

/// What the model probe does on Darwin after the replies so far. It asks
/// the version tool for the product name. On the mobile variant it then
/// asks `uname` for the machine architecture; elsewhere it asks the system
/// control tool for the hardware model and the extension tool for the
/// loaded kernel extensions. Last it asks the lookup service about the
/// machine's identifier, once, and shows the model whatever the answer.
pub open spec fn darwin_model_move(replies: Seq<Reply>) -> Move {
    let facts = model_facts(Family::Darwin, replies);
    let ask_lookup = Move::Ask(Source::Lookup { url: lookup_url(machine_id(facts)) });
    let done = Move::Done(model_text(Family::Darwin, facts));
    if replies.len() == 0 {
        Move::Ask(Source::Command { program: "sw_vers"@, arguments: seq!["-productName"@] })
    } else if is_mobile(text_at(replies, 0)) {
        if replies.len() == 1 {
            Move::Ask(Source::Command { program: "uname"@, arguments: seq!["-m"@] })
        } else if replies.len() == 2 {
            ask_lookup
        } else {
            done
        }
    } else {
        if replies.len() == 1 {
            Move::Ask(Source::Command { program: "sysctl"@, arguments: seq!["-n"@, "hw.model"@] })
        } else if replies.len() == 2 {
            Move::Ask(Source::Command { program: "kextstat"@, arguments: Seq::empty() })
        } else if replies.len() == 3 {
            ask_lookup
        } else {
            done
        }
    }
}

/// What the model probe does after the replies so far. On Linux it asks
/// the six files in their order; on an unknown system it asks nothing.
pub open spec fn model_move(family: Family, replies: Seq<Reply>) -> Move {
    match family {
        Family::Linux => if replies.len() < linux_model_sources().len() {
            Move::Ask(linux_model_sources()[replies.len() as int])
        } else {
            Move::Done(model_text(family, model_facts(family, replies)))
        },
        Family::Darwin => darwin_model_move(replies),
        Family::Unknown(_) => Move::Done(model_text(family, model_facts(family, replies))),
    }
}

/// Whatever the lookup service answers, the probe asks nothing more; and
/// where it gives no body, the model is made of the machine's own
/// identifier.
pub proof fn lemma_lookup_is_asked_once(replies: Seq<Reply>)
    requires
        replies.len() == (if is_mobile(text_at(replies, 0)) {
            3int
        } else {
            4int
        }),
    ensures
        darwin_model_move(replies) is Done,
        !(replies.last() is Text) ==> darwin_model_move(replies) == Move::Done(
            finished_model(annotated_id(model_facts(Family::Darwin, replies))),
        ),
{
    if !(replies.last() is Text) {
        lemma_lookup_failure(model_facts(Family::Darwin, replies));
    }
}

fn linux_model_file(i: usize) -> (source: EvidenceSource)
    requires
        i < 6,
    ensures
        source@ == linux_model_sources()[i as int],
{
    match i {
        0 => file("/sys/devices/virtual/dmi/id/board_vendor"),
        1 => file("/sys/devices/virtual/dmi/id/board_name"),
        2 => file("/sys/devices/virtual/dmi/id/product_name"),
        3 => file("/sys/devices/virtual/dmi/id/product_version"),
        4 => file("/sys/firmware/devicetree/base/model"),
        _ => file("/tmp/sysinfo/model"),
    }
}

fn lookup_source(evidence: &ModelEvidence) -> (source: EvidenceSource)
    ensures
        source@ == (Source::Lookup { url: lookup_url(machine_id(evidence@)) }),
{
    let mut url = chars_of("https://di-api.reincubate.com/v1/apple-identifiers/");
    let id = darwin_machine_id(evidence);
    append(&mut url, &id);
    append_str(&mut url, "/");
    lookup(string_of(&url).as_str())
}

/// The next step of the model probe, given the answers so far. `os` is
/// the kernel's name.
pub fn model_step(os: &str, answers: &Vec<Answer>) -> (step: Step)
    ensures
        step@ == model_move(family_of(os@), replies(answers@)),
{
    let n = answers.len();
    let mut evidence = ModelEvidence::new();
    match classify_os(os) {
        OsFamily::Linux => {
            if n < 6 {
                return Step::Ask(linux_model_file(n));
            }
            evidence.board_vendor = answer_text(answers, 0);
            evidence.board_name = answer_text(answers, 1);
            evidence.product_name = answer_text(answers, 2);
            evidence.product_version = answer_text(answers, 3);
            evidence.devtree_model = answer_text(answers, 4);
            evidence.override_model = answer_text(answers, 5);
        },
        OsFamily::Darwin => {
            if n == 0 {
                return Step::Ask(command_with("sw_vers", "-productName"));
            }
            evidence.os_product_name = answer_text(answers, 0);
            if names_mobile_system(&evidence.os_product_name) {
                if n == 1 {
                    return Step::Ask(command_with("uname", "-m"));
                }
                evidence.machine_arch = answer_text(answers, 1);
                evidence.lookup_response = answer_text(answers, 2);
                if n == 2 {
                    return Step::Ask(lookup_source(&evidence));
                }
            } else {
                if n == 1 {
                    return Step::Ask(command_with_two("sysctl", "-n", "hw.model"));
                }
                if n == 2 {
                    return Step::Ask(command("kextstat"));
                }
                evidence.hardware_model = answer_text(answers, 1);
                evidence.kernel_extensions = answer_text(answers, 2);
                evidence.lookup_response = answer_text(answers, 3);
                if n == 3 {
                    return Step::Ask(lookup_source(&evidence));
                }
            }
        },
        OsFamily::Unknown(_) => {},
    }
    Step::Done(get_model(os, &evidence))
}

} // verus!
