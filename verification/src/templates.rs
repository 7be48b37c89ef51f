//! Workspace prompt templates: identifier sanitizing, the YAML frontmatter
//! serialization the template files are written with, and the path layout of
//! stored templates. The application does the file writes.

use vstd::prelude::*;
use vstd::string::*;
use crate::text::{dec_digits, joined, trim_back, trimmed};

verus! {

/// A stored prompt template.
#[derive(Clone, Debug)]
pub struct WorkspaceTemplate {
    pub id: String,
    pub title: String,
    pub description: String,
    pub prompt: String,
    pub created_at: u64,
}

impl WorkspaceTemplate {
    /// A field-for-field copy, usable in proofs.
    pub fn duplicate(&self) -> (r: Self)
        ensures
            r == *self,
    {
        WorkspaceTemplate {
            id: self.id.clone(),
            title: self.title.clone(),
            description: self.description.clone(),
            prompt: self.prompt.clone(),
            created_at: self.created_at,
        }
    }
}

/// Relies on `std::time::SystemTime::now`: the milliseconds since the epoch,
/// or zero when the clock reads before it. The value depends on the clock, so
/// nothing is promised of it.
#[verifier::external_body]
pub fn now_ms() -> u64 {
    std::time::SystemTime::now().duration_since(std::time::UNIX_EPOCH).map(
        |d| d.as_millis() as u64,
    ).unwrap_or(0)
}

/// A template's creation time: the given stamp when one was set, the clock
/// otherwise.
pub fn default_template_created_at(input: u64) -> (r: u64)
    ensures
        input > 0 ==> r == input,
{
    if input > 0 {
        input
    } else {
        now_ms()
    }
}

/// Characters template identifiers are made of.
pub open spec fn is_ident_char(c: char) -> bool {
    ('a' <= c && c <= 'z') || ('A' <= c && c <= 'Z') || ('0' <= c && c <= '9') || c == '_' || c
        == '-'
}

#[verifier::when_used_as_spec(is_ident_char)]
fn is_ident_char_exec(c: char) -> (r: bool)
    ensures
        r == is_ident_char(c),
{
    ('a' <= c && c <= 'z') || ('A' <= c && c <= 'Z') || ('0' <= c && c <= '9') || c == '_' || c
        == '-'
}

/// The identifier characters of a sequence, in order.
pub open spec fn kept_ident_chars(s: Seq<char>) -> Seq<char>
    decreases s.len(),
{
    if s.len() == 0 {
        Seq::empty()
    } else {
        kept_ident_chars(s.drop_last()) + if is_ident_char(s.last()) {
            seq![s.last()]
        } else {
            Seq::<char>::empty()
        }
    }
}

/// Sanitizes a raw template identifier: surrounding whitespace is dropped,
/// only letters, digits, underscores and dashes are kept; a blank input or
/// one with nothing left is rejected.
pub fn sanitize_template_id(raw: &str) -> (r: Option<String>)
    ensures
        ({
            let kept = kept_ident_chars(trimmed(raw@));
            if trimmed(raw@).len() == 0 || kept.len() == 0 {
                r is None
            } else {
                r matches Some(s) && s@ == kept
            }
        }),
{
    let t = crate::text::trim_str(raw);
    if t.as_str().unicode_len() == 0 {
        return None;
    }
    let chars = crate::text::str_to_chars(t.as_str());
    let mut out: Vec<char> = Vec::new();
    let mut i: usize = 0;
    while i < chars.len()
        invariant
            i <= chars@.len(),
            chars@ == trimmed(raw@),
            out@ == kept_ident_chars(chars@.take(i as int)),
        decreases chars@.len() - i,
    {
        if is_ident_char_exec(chars[i]) {
            out.push(chars[i]);
        }
        proof {
            assert(chars@.take(i + 1 as int).drop_last() =~= chars@.take(i as int));
            assert(chars@.take(i + 1 as int).last() == chars@[i as int]);
            assert(out@ =~= kept_ident_chars(chars@.take(i + 1 as int)));
        }
        i = i + 1;
    }
    proof {
        assert(chars@.take(chars@.len() as int) =~= chars@);
    }
    if out.len() == 0 {
        None
    } else {
        Some(crate::text::chars_to_string(&out))
    }
}

/// How one character is written inside a quoted YAML scalar.
pub open spec fn yaml_escaped_char(c: char) -> Seq<char> {
    if c == '\\' {
        seq!['\\', '\\']
    } else if c == '"' {
        seq!['\\', '"']
    } else if c == '\n' {
        seq!['\\', 'n']
    } else if c == '\r' {
        seq!['\\', 'r']
    } else if c == '\t' {
        seq!['\\', 't']
    } else {
        seq![c]
    }
}

/// A sequence written inside a quoted YAML scalar.
pub open spec fn yaml_escaped(s: Seq<char>) -> Seq<char>
    decreases s.len(),
{
    if s.len() == 0 {
        Seq::empty()
    } else {
        yaml_escaped(s.drop_last()) + yaml_escaped_char(s.last())
    }
}

/// A string as a quoted YAML scalar: quoted, with the characters YAML would
/// misread escaped.
pub open spec fn yaml_scalar(s: Seq<char>) -> Seq<char> {
    seq!['"'] + yaml_escaped(s) + seq!['"']
}

fn escape_yaml_scalar(value: &str) -> (r: String)
    ensures
        r@ == yaml_scalar(value@),
{
    let chars = crate::text::str_to_chars(value);
    let mut out: Vec<char> = Vec::new();
    out.push('"');
    let mut i: usize = 0;
    while i < chars.len()
        invariant
            i <= chars@.len(),
            chars@ == value@,
            out@ == seq!['"'] + yaml_escaped(chars@.take(i as int)),
        decreases chars@.len() - i,
    {
        let c = chars[i];
        if c == '\\' {
            out.push('\\');
            out.push('\\');
        } else if c == '"' {
            out.push('\\');
            out.push('"');
        } else if c == '\n' {
            out.push('\\');
            out.push('n');
        } else if c == '\r' {
            out.push('\\');
            out.push('r');
        } else if c == '\t' {
            out.push('\\');
            out.push('t');
        } else {
            out.push(c);
        }
        proof {
            assert(chars@.take(i + 1 as int).drop_last() =~= chars@.take(i as int));
            assert(chars@.take(i + 1 as int).last() == chars@[i as int]);
            assert(out@ =~= seq!['"'] + yaml_escaped(chars@.take(i + 1 as int)));
        }
        i = i + 1;
    }
    out.push('"');
    proof {
        assert(chars@.take(chars@.len() as int) =~= chars@);
        assert(out@ =~= yaml_scalar(value@));
    }
    crate::text::chars_to_string(&out)
}

/// The exact file content a template is stored as: a YAML frontmatter block
/// with the escaped id, title and description and the creation stamp, then
/// the prompt with trailing whitespace dropped and one final newline.
pub open spec fn frontmatter_spec(
    id: Seq<char>,
    title: Seq<char>,
    description: Seq<char>,
    created_at: u64,
    prompt: Seq<char>,
) -> Seq<char> {
    "---\nid: "@ + yaml_scalar(id) + "\ntitle: "@ + yaml_scalar(title) + "\ndescription: "@
        + yaml_scalar(description) + "\ncreatedAt: "@ + dec_digits(created_at as nat) + "\n---\n\n"@
        + trim_back(prompt) + "\n"@
}

/// Serializes a template to the file content it is stored as.
pub fn serialize_template_frontmatter(template: &WorkspaceTemplate) -> (r: Result<String, String>)
    ensures
        r matches Ok(s) && s@ == frontmatter_spec(
            template.id@,
            template.title@,
            template.description@,
            template.created_at,
            template.prompt@,
        ),
{
    let mut out = String::from_str("---\nid: ");
    let id = escape_yaml_scalar(template.id.as_str());
    out.append(id.as_str());
    out.append("\ntitle: ");
    let title = escape_yaml_scalar(template.title.as_str());
    out.append(title.as_str());
    out.append("\ndescription: ");
    let description = escape_yaml_scalar(template.description.as_str());
    out.append(description.as_str());
    out.append("\ncreatedAt: ");
    let stamp = crate::text::u64_to_string(template.created_at);
    out.append(stamp.as_str());
    out.append("\n---\n\n");
    let prompt_trimmed = crate::text::trim_end_str(template.prompt.as_str());
    out.append(prompt_trimmed.as_str());
    out.append("\n");
    Ok(out)
}

/// Whether some entry equals the given text.
pub open spec fn has_str(items: Seq<String>, text: Seq<char>) -> bool {
    exists|i: int| 0 <= i < items.len() && #[trigger] items[i]@ == text
}

/// The plugin list after the required plugins are folded in, each appended
/// only when not already present.
pub open spec fn merged_plugins(existing: Seq<String>, required: Seq<String>) -> Seq<String>
    decreases required.len(),
{
    if required.len() == 0 {
        existing
    } else {
        let prev = merged_plugins(existing, required.drop_last());
        if has_str(prev, required.last()@) {
            prev
        } else {
            prev.push(required.last())
        }
    }
}

/// Whether the list holds an entry equal to the given text.
pub fn vec_contains_str(items: &Vec<String>, text: &str) -> (r: bool)
    ensures
        r == has_str(items@, text@),
{
    let mut i: usize = 0;
    while i < items.len()
        invariant
            i <= items@.len(),
            forall|k: int| 0 <= k < i ==> #[trigger] items@[k]@ != text@,
        decreases items@.len() - i,
    {
        if crate::text::str_eq(items[i].as_str(), text) {
            return true;
        }
        i = i + 1;
    }
    false
}

/// Folds the required plugins into an existing plugin list: each is appended
/// once, and entries already present (or appended earlier in the same pass)
/// are not repeated.
pub fn merge_plugins(existing: Vec<String>, required: &Vec<String>) -> (r: Vec<String>)
    ensures
        r@ == merged_plugins(existing@, required@),
{
    let ghost ex = existing@;
    let mut out = existing;
    let mut i: usize = 0;
    while i < required.len()
        invariant
            i <= required@.len(),
            out@ == merged_plugins(ex, required@.take(i as int)),
        decreases required@.len() - i,
    {
        if !vec_contains_str(&out, required[i].as_str()) {
            out.push(required[i].clone());
        }
        proof {
            assert(required@.take(i + 1 as int).drop_last() =~= required@.take(i as int));
            assert(required@.take(i + 1 as int).last() == required@[i as int]);
        }
        i = i + 1;
    }
    proof {
        assert(required@.take(required@.len() as int) =~= required@);
    }
    out
}

/// The plugins a preset requires.
pub fn required_plugins_for_preset(preset: &str) -> (r: Vec<String>)
    ensures
        preset@ == "starter"@ || preset@ == "automation"@ ==> r.deep_view() =~~= seq![
            "opencode-scheduler"@,
        ],
        preset@ != "starter"@ && preset@ != "automation"@ ==> r@.len() == 0,
{
    let mut out: Vec<String> = Vec::new();
    if crate::text::str_eq(preset, "starter") || crate::text::str_eq(preset, "automation") {
        out.push(String::from_str("opencode-scheduler"));
    }
    out
}

/// The directory a workspace's templates live in.
pub fn templates_dir_for(workspace_path: &str) -> (r: String)
    ensures
        r@ == joined(workspace_path@, ".openwork/templates"@),
{
    crate::text::join_path(workspace_path, ".openwork/templates")
}

/// The file a template is stored at, inside its own directory.
pub fn template_file_path(templates_dir: &str, template_id: &str) -> (r: String)
    ensures
        r@ == joined(joined(templates_dir@, template_id@), "template.yml"@),
{
    let dir = crate::text::join_path(templates_dir, template_id);
    crate::text::join_path(dir.as_str(), "template.yml")
}

/// The single-file locations older versions stored a template at; a write
/// removes them, a delete checks them too.
pub fn legacy_template_paths(templates_dir: &str, template_id: &str) -> (r: Vec<String>)
    ensures
        r.deep_view() =~~= seq![
            joined(templates_dir@, template_id@ + ".json"@),
            joined(templates_dir@, template_id@ + ".yml"@),
            joined(templates_dir@, template_id@ + ".yaml"@),
        ],
{
    let mut out: Vec<String> = Vec::new();
    let mut a = String::from_str(template_id);
    a.append(".json");
    out.push(crate::text::join_path(templates_dir, a.as_str()));
    let mut b = String::from_str(template_id);
    b.append(".yml");
    out.push(crate::text::join_path(templates_dir, b.as_str()));
    let mut c = String::from_str(template_id);
    c.append(".yaml");
    out.push(crate::text::join_path(templates_dir, c.as_str()));
    out
}

/// The templates seeded into a workspace whose template folder is empty.
pub fn default_templates(now: u64) -> (r: Vec<WorkspaceTemplate>)
    ensures
        r@.len() == 3,
        r@[0].id@ == "tmpl_interact_with_files"@,
        r@[1].id@ == "tmpl_learn_skills"@,
        r@[2].id@ == "tmpl_learn_plugins"@,
        forall|k: int| 0 <= k < 3 ==> #[trigger] r@[k].created_at == now,
{
    let mut out: Vec<WorkspaceTemplate> = Vec::new();
    out.push(
        WorkspaceTemplate {
            id: String::from_str("tmpl_interact_with_files"),
            title: String::from_str("Learn to interact with files"),
            description: String::from_str("Safe, practical file workflows"),
            prompt: String::from_str(
                "Show me how to interact with files in this workspace. Include safe examples for reading, summarizing, and editing.",
            ),
            created_at: now,
        },
    );
    out.push(
        WorkspaceTemplate {
            id: String::from_str("tmpl_learn_skills"),
            title: String::from_str("Learn about skills"),
            description: String::from_str("How skills work and how to create your own"),
            prompt: String::from_str(
                "Explain what skills are, how to use them, and how to create a new skill for this workspace.",
            ),
            created_at: now,
        },
    );
    out.push(
        WorkspaceTemplate {
            id: String::from_str("tmpl_learn_plugins"),
            title: String::from_str("Learn about plugins"),
            description: String::from_str("What plugins are and how to install them"),
            prompt: String::from_str(
                "Explain what plugins are and how to install them in this workspace.",
            ),
            created_at: now,
        },
    );
    out
}

/// The plugin entries already in a workspace configuration: an array keeps
/// its string entries, a single string stands alone, anything else is empty.
pub fn existing_plugins(config: &serde_json::Value) -> (r: Vec<String>) {
    match crate::jsonval::json_get(config, "plugin") {
        Some(v) => {
            if let Some(arr) = crate::jsonval::json_array(v) {
                let mut out: Vec<String> = Vec::new();
                let mut i: usize = 0;
                while i < arr.len()
                    decreases arr@.len() - i,
                {
                    if let Some(s) = crate::jsonval::json_str(&arr[i]) {
                        out.push(s);
                    }
                    i = i + 1;
                }
                out
            } else if let Some(s) = crate::jsonval::json_str(v) {
                let mut out: Vec<String> = Vec::new();
                out.push(s);
                out
            } else {
                Vec::new()
            }
        },
        None => Vec::new(),
    }
}

/// The plugin list a workspace configuration should end up with: what it has,
/// with the preset's required plugins folded in.
pub fn merged_plugin_list(config: &serde_json::Value, preset: &str) -> (r: Vec<String>) {
    let existing = existing_plugins(config);
    let required = required_plugins_for_preset(preset);
    merge_plugins(existing, &required)
}

/// Prepares a template for storage: the id is sanitized (a blank or
/// unusable one is rejected with the write's error) and a missing creation
/// stamp is filled from the clock.
pub fn normalize_template(template: WorkspaceTemplate) -> (r: Result<WorkspaceTemplate, String>)
    ensures
        ({
            let kept = kept_ident_chars(trimmed(template.id@));
            if trimmed(template.id@).len() == 0 || kept.len() == 0 {
                r matches Err(e) && e@ == "template.id is required"@
            } else {
                r matches Ok(t) && t.id@ == kept && t.title == template.title && t.description
                    == template.description && t.prompt == template.prompt && (template.created_at
                    > 0 ==> t.created_at == template.created_at)
            }
        }),
{
    let id = match sanitize_template_id(template.id.as_str()) {
        Some(id) => id,
        None => {
            return Err(String::from_str("template.id is required"));
        },
    };
    let created_at = default_template_created_at(template.created_at);
    Ok(
        WorkspaceTemplate {
            id,
            title: template.title,
            description: template.description,
            prompt: template.prompt,
            created_at,
        },
    )
}

} // verus!
