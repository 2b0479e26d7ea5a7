//! Skill metadata, skills, their scripts and references, and the skill manager.

use vstd::prelude::*;

use crate::keyed::KeyedList;
use crate::session::types::{copy_opt_string, opt_str_view};
use crate::text::{
    lemma_first_occurrence_unique, chars_range,
    decimal, format_u64, concat2, concat3,
    append_chars, chars_of, char_rows, contains_chars, contains_seq, copy_strings, first_match, is_first_occurrence, lines_of,
    owned, split_lines, str_equal, string_from_chars, string_from_range, strs_view,
};

verus! {

broadcast use vstd::string::group_string_axioms;

/// Skill metadata: the front matter of a skill file.
#[derive(Debug, Clone)]
pub struct SkillMetadata {
    pub name: String,
    pub description: String,
    pub version: String,
    pub author: Option<String>,
    pub triggers: Vec<String>,
    pub required_tools: Vec<String>,
    pub tags: Vec<String>,
}

/// Mathematical value of skill metadata.
pub struct SkillMetadataView {
    pub name: Seq<char>,
    pub description: Seq<char>,
    pub version: Seq<char>,
    pub author: Option<Seq<char>>,
    pub triggers: Seq<Seq<char>>,
    pub required_tools: Seq<Seq<char>>,
    pub tags: Seq<Seq<char>>,
}

impl View for SkillMetadata {
    type V = SkillMetadataView;

    open spec fn view(&self) -> SkillMetadataView {
        SkillMetadataView {
            name: self.name@,
            description: self.description@,
            version: self.version@,
            author: opt_str_view(self.author),
            triggers: strs_view(self.triggers@),
            required_tools: strs_view(self.required_tools@),
            tags: strs_view(self.tags@),
        }
    }
}

/// The version a skill has when its front matter names none: "1.0.0".
pub fn default_version() -> (v: String)
    ensures
        v@ == "1.0.0"@,
{
    owned("1.0.0")
}

impl Default for SkillMetadata {
    /// Metadata named "unnamed-skill", described "No description", version
    /// "1.0.0", with no author, triggers, required tools or tags.
    fn default() -> (m: SkillMetadata)
        ensures
            m@ == (SkillMetadataView {
                name: "unnamed-skill"@,
                description: "No description"@,
                version: "1.0.0"@,
                author: None,
                triggers: Seq::empty(),
                required_tools: Seq::empty(),
                tags: Seq::empty(),
            }),
    {
        let m = SkillMetadata {
            name: owned("unnamed-skill"),
            description: owned("No description"),
            version: default_version(),
            author: None,
            triggers: Vec::new(),
            required_tools: Vec::new(),
            tags: Vec::new(),
        };
        assert(strs_view(m.triggers@) =~= Seq::<Seq<char>>::empty());
        assert(strs_view(m.tags@) =~= Seq::<Seq<char>>::empty());
        assert(strs_view(m.required_tools@) =~= Seq::<Seq<char>>::empty());
        m
    }
}

impl SkillMetadata {
    /// A copy with the same value.
    pub fn duplicate(&self) -> (r: SkillMetadata)
        ensures
            r@ == self@,
    {
        SkillMetadata {
            name: self.name.clone(),
            description: self.description.clone(),
            version: self.version.clone(),
            author: copy_opt_string(&self.author),
            triggers: copy_strings(&self.triggers),
            required_tools: copy_strings(&self.required_tools),
            tags: copy_strings(&self.tags),
        }
    }
}

/// A reference document of a skill, its content loaded when needed.
#[derive(Debug, Clone)]
pub struct SkillReference {
    pub name: String,
    pub description: String,
    pub content: Option<String>,
}

/// Mathematical value of a skill reference.
pub struct SkillReferenceView {
    pub name: Seq<char>,
    pub description: Seq<char>,
    pub content: Option<Seq<char>>,
}

impl View for SkillReference {
    type V = SkillReferenceView;

    open spec fn view(&self) -> SkillReferenceView {
        SkillReferenceView { name: self.name@, description: self.description@, content: opt_str_view(self.content) }
    }
}

impl SkillReference {
    /// A copy with the same value.
    pub fn duplicate(&self) -> (r: SkillReference)
        ensures
            r@ == self@,
    {
        SkillReference { name: self.name.clone(), description: self.description.clone(), content: copy_opt_string(&self.content) }
    }
}

/// A script of a skill: a code block with its language.
#[derive(Debug, Clone)]
pub struct SkillScript {
    pub name: String,
    pub description: String,
    pub language: String,
    pub code: String,
    pub auto_execute: bool,
}

/// Mathematical value of a skill script.
pub struct SkillScriptView {
    pub name: Seq<char>,
    pub description: Seq<char>,
    pub language: Seq<char>,
    pub code: Seq<char>,
    pub auto_execute: bool,
}

impl View for SkillScript {
    type V = SkillScriptView;

    open spec fn view(&self) -> SkillScriptView {
        SkillScriptView {
            name: self.name@,
            description: self.description@,
            language: self.language@,
            code: self.code@,
            auto_execute: self.auto_execute,
        }
    }
}

impl SkillScript {
    /// A copy with the same value.
    pub fn duplicate(&self) -> (r: SkillScript)
        ensures
            r@ == self@,
    {
        SkillScript {
            name: self.name.clone(),
            description: self.description.clone(),
            language: self.language.clone(),
            code: self.code.clone(),
            auto_execute: self.auto_execute,
        }
    }
}

/// The values of a list of references.
pub open spec fn references_view(v: Seq<SkillReference>) -> Seq<SkillReferenceView> {
    v.map_values(|r: SkillReference| r@)
}

/// The values of a list of scripts.
pub open spec fn scripts_view(v: Seq<SkillScript>) -> Seq<SkillScriptView> {
    v.map_values(|s: SkillScript| s@)
}

/// A skill: metadata, Markdown body, references and scripts.
#[derive(Debug, Clone)]
pub struct Skill {
    pub metadata: SkillMetadata,
    pub content: String,
    pub references: Vec<SkillReference>,
    pub scripts: Vec<SkillScript>,
    pub file_path: Option<String>,
}

/// Mathematical value of a skill.
pub struct SkillView {
    pub metadata: SkillMetadataView,
    pub content: Seq<char>,
    pub references: Seq<SkillReferenceView>,
    pub scripts: Seq<SkillScriptView>,
    pub file_path: Option<Seq<char>>,
}

impl View for Skill {
    type V = SkillView;

    open spec fn view(&self) -> SkillView {
        SkillView {
            metadata: self.metadata@,
            content: self.content@,
            references: references_view(self.references@),
            scripts: scripts_view(self.scripts@),
            file_path: opt_str_view(self.file_path),
        }
    }
}

impl Skill {
    /// A skill with no references, scripts or file path.
    pub fn new(metadata: SkillMetadata, content: String) -> (s: Skill)
        ensures
            s.metadata == metadata,
            s.content == content,
            s.references@.len() == 0,
            s.scripts@.len() == 0,
            s.file_path is None,
    {
        Skill { metadata, content, references: Vec::new(), scripts: Vec::new(), file_path: None }
    }

    /// Appends a reference.
    pub fn add_reference(&mut self, reference: SkillReference)
        ensures
            final(self).references@ == old(self).references@.push(reference),
            final(self).metadata == old(self).metadata,
            final(self).content == old(self).content,
            final(self).scripts == old(self).scripts,
            final(self).file_path == old(self).file_path,
    {
        self.references.push(reference);
    }

    /// Appends a script.
    pub fn add_script(&mut self, script: SkillScript)
        ensures
            final(self).scripts@ == old(self).scripts@.push(script),
            final(self).metadata == old(self).metadata,
            final(self).content == old(self).content,
            final(self).references == old(self).references,
            final(self).file_path == old(self).file_path,
    {
        self.scripts.push(script);
    }

    /// A copy with the same value.
    pub fn duplicate(&self) -> (r: Skill)
        ensures
            r@ == self@,
    {
        let mut refs: Vec<SkillReference> = Vec::new();
        let mut i: usize = 0;
        while i < self.references.len()
            invariant
                i <= self.references@.len(),
                refs@.len() == i,
                forall|j: int| 0 <= j < i ==> #[trigger] refs@[j]@ == self.references@[j]@,
            decreases self.references.len() - i,
        {
            refs.push(self.references[i].duplicate());
            i = i + 1;
        }
        let mut scripts: Vec<SkillScript> = Vec::new();
        let mut i: usize = 0;
        while i < self.scripts.len()
            invariant
                i <= self.scripts@.len(),
                scripts@.len() == i,
                forall|j: int| 0 <= j < i ==> #[trigger] scripts@[j]@ == self.scripts@[j]@,
            decreases self.scripts.len() - i,
        {
            scripts.push(self.scripts[i].duplicate());
            i = i + 1;
        }
        assert(references_view(refs@) =~= references_view(self.references@));
        assert(scripts_view(scripts@) =~= scripts_view(self.scripts@));
        Skill {
            metadata: self.metadata.duplicate(),
            content: self.content.clone(),
            references: refs,
            scripts,
            file_path: copy_opt_string(&self.file_path),
        }
    }
}

/// The outcome of running a skill script.
#[derive(Debug, Clone)]
pub struct SkillExecutionResult {
    pub success: bool,
    pub output: String,
    pub error: Option<String>,
    pub duration_ms: u64,
}

/// What a scan of Markdown lines for fenced code blocks has seen so far.
pub struct BlockScan {
    pub in_block: bool,
    pub language: Seq<char>,
    pub code: Seq<char>,
    pub blocks: Seq<(Seq<char>, Seq<char>)>,
}

/// A line that starts with three backticks opens or closes a code block.
pub open spec fn is_fence(line: Seq<char>) -> bool {
    line.len() >= 3 && line[0] == '`' && line[1] == '`' && line[2] == '`'
}

/// `s` without its leading backticks.
pub open spec fn trim_backticks(s: Seq<char>) -> Seq<char>
    decreases s.len(),
{
    if s.len() > 0 && s[0] == '`' {
        trim_backticks(s.subrange(1, s.len() as int))
    } else {
        s
    }
}

/// One line of the scan: a fence closes the open block (recording its
/// language and code) or opens one (its language the line without the
/// backticks); any other line inside a block is added to its code.
pub open spec fn scan_line(st: BlockScan, line: Seq<char>) -> BlockScan {
    if is_fence(line) {
        if st.in_block {
            BlockScan { in_block: false, language: st.language, code: Seq::empty(), blocks: st.blocks.push((st.language, st.code)) }
        } else {
            BlockScan { in_block: true, language: trim_backticks(line), code: st.code, blocks: st.blocks }
        }
    } else if st.in_block {
        BlockScan { in_block: st.in_block, language: st.language, code: st.code + line + seq!['\n'], blocks: st.blocks }
    } else {
        st
    }
}

/// The scan of a list of lines.
pub open spec fn scan_lines(lines: Seq<Seq<char>>) -> BlockScan
    decreases lines.len(),
{
    if lines.len() == 0 {
        BlockScan { in_block: false, language: Seq::empty(), code: Seq::empty(), blocks: Seq::empty() }
    } else {
        scan_line(scan_lines(lines.subrange(0, lines.len() - 1)), lines[lines.len() - 1])
    }
}

/// The closed fenced code blocks of a Markdown text, as (language, code); each
/// code line ends with '\n'.
pub open spec fn code_blocks(markdown: Seq<char>) -> Seq<(Seq<char>, Seq<char>)> {
    scan_lines(lines_of(markdown)).blocks
}

/// The values of a list of (language, code) pairs.
pub open spec fn pairs_view(v: Seq<(String, String)>) -> Seq<(Seq<char>, Seq<char>)> {
    v.map_values(|p: (String, String)| (p.0@, p.1@))
}

/// `v` without its leading backticks.
fn trim_backticks_chars(v: &[char]) -> (r: Vec<char>)
    ensures
        r@ == trim_backticks(v@),
{
    let mut k: usize = 0;
    assert(v@.subrange(0, v@.len() as int) =~= v@);
    while k < v.len() && v[k] == '`'
        invariant
            k <= v@.len(),
            trim_backticks(v@) == trim_backticks(v@.subrange(k as int, v@.len() as int)),
        decreases v.len() - k,
    {
        let ghost t = v@.subrange(k as int, v@.len() as int);
        assert(t.subrange(1, t.len() as int) =~= v@.subrange(k + 1, v@.len() as int));
        k = k + 1;
    }
    let mut r: Vec<char> = Vec::new();
    let mut j: usize = k;
    while j < v.len()
        invariant
            k <= j <= v@.len(),
            r@ == v@.subrange(k as int, j as int),
        decreases v.len() - j,
    {
        r.push(v[j]);
        j = j + 1;
        assert(r@ =~= v@.subrange(k as int, j as int));
    }
    r
}

impl SkillManager {
    /// The fenced code blocks of a Markdown text, as (language, code) pairs in
    /// the order they close.
    pub fn extract_code_blocks(markdown: &str) -> (blocks: Vec<(String, String)>)
        ensures
            pairs_view(blocks@) == code_blocks(markdown@),
    {
        let lines = split_lines(chars_of(markdown).as_slice());
        let ghost ls = char_rows(lines@);
        let mut blocks: Vec<(String, String)> = Vec::new();
        let mut in_block = false;
        let mut language: Vec<char> = Vec::new();
        let mut code: Vec<char> = Vec::new();
        let mut i: usize = 0;
        assert(ls.subrange(0, 0) =~= Seq::<Seq<char>>::empty());
        assert(pairs_view(blocks@) =~= Seq::<(Seq<char>, Seq<char>)>::empty());
        while i < lines.len()
            invariant
                ls == char_rows(lines@),
                ls == lines_of(markdown@),
                i <= lines@.len(),
                ({
                    let st = scan_lines(ls.subrange(0, i as int));
                    st.in_block == in_block && st.language == language@ && st.code == code@
                        && st.blocks == pairs_view(blocks@)
                }),
            decreases lines.len() - i,
        {
            let line = &lines[i];
            assert(ls.subrange(0, i + 1).subrange(0, i as int) =~= ls.subrange(0, i as int));
            assert(ls[i as int] == line@);
            let fence = line.len() >= 3 && line[0] == '`' && line[1] == '`' && line[2] == '`';
            if fence {
                if in_block {
                    let ghost before = pairs_view(blocks@);
                    blocks.push((string_from_chars(language.as_slice()), string_from_chars(code.as_slice())));
                    assert(pairs_view(blocks@) =~= before.push((language@, code@)));
                    code = Vec::new();
                    in_block = false;
                } else {
                    language = trim_backticks_chars(line.as_slice());
                    in_block = true;
                }
            } else if in_block {
                append_chars(&mut code, line.as_slice());
                code.push('\n');
            }
            i = i + 1;
        }
        assert(ls.subrange(0, i as int) =~= ls);
        blocks
    }
}

/// The front matter and body of a skill file: the text between the first and
/// second "---", and the text after the second. `None` when "---" occurs
/// fewer than twice.
pub open spec fn front_matter_split(s: Seq<char>) -> Option<(Seq<char>, Seq<char>)> {
    if exists|i: int| is_first_occurrence(s, "---"@, i) {
        let i = choose|i: int| is_first_occurrence(s, "---"@, i);
        let rest = s.subrange(i + 3, s.len() as int);
        if exists|j: int| is_first_occurrence(rest, "---"@, j) {
            let j = choose|j: int| is_first_occurrence(rest, "---"@, j);
            Some((rest.subrange(0, j), rest.subrange(j + 3, rest.len() as int)))
        } else {
            None
        }
    } else {
        None
    }
}

/// The scripts taken from code blocks: "script_<n>" counting from 1, described
/// "Auto-extracted script", not run on load.
pub open spec fn auto_scripts(blocks: Seq<(Seq<char>, Seq<char>)>) -> Seq<SkillScriptView> {
    Seq::new(blocks.len(), |i: int| SkillScriptView {
        name: "script_"@ + decimal((i + 1) as nat),
        description: "Auto-extracted script"@,
        language: blocks[i].0,
        code: blocks[i].1,
        auto_execute: false,
    })
}

/// The skill a parsed file makes: the metadata, the body as content, the
/// scripts taken from the body's code blocks, no references.
pub open spec fn parsed_skill(metadata: SkillMetadataView, body: Seq<char>, file_path: Seq<char>) -> SkillView {
    SkillView {
        metadata,
        content: body,
        references: Seq::empty(),
        scripts: auto_scripts(code_blocks(body)),
        file_path: Some(file_path),
    }
}

/// The skills kept by name, where they are loaded from, and whether they load
/// on start.
pub struct SkillManager {
    skills: KeyedList<Skill>,
    skills_folder: String,
    auto_load: bool,
}

/// The Markdown of a skill's references.
pub open spec fn references_md(refs: Seq<SkillReferenceView>) -> Seq<char>
    decreases refs.len(),
{
    if refs.len() == 0 {
        Seq::empty()
    } else {
        let r = refs[refs.len() - 1];
        references_md(refs.subrange(0, refs.len() - 1)) + "### "@ + r.name + "\n\n"@ + r.description + "\n\n"@
    }
}

/// The Markdown of a skill's scripts.
pub open spec fn scripts_md(scripts: Seq<SkillScriptView>) -> Seq<char>
    decreases scripts.len(),
{
    if scripts.len() == 0 {
        Seq::empty()
    } else {
        let s = scripts[scripts.len() - 1];
        scripts_md(scripts.subrange(0, scripts.len() - 1)) + "### "@ + s.name + " ("@ + s.language + ")\n\n"@
            + "```"@ + s.language + " \n"@ + s.code + "\n```\n\n"@
    }
}

/// A skill written as Markdown, given its metadata written as YAML.
pub open spec fn skill_markdown(sk: SkillView, front_matter: Seq<char>) -> Seq<char> {
    "---\n"@ + front_matter + "---\n\n"@ + sk.content
        + (if sk.references.len() > 0 { "\n\n## References\n\n"@ + references_md(sk.references) } else { Seq::empty() })
        + (if sk.scripts.len() > 0 { "\n\n## Scripts\n\n"@ + scripts_md(sk.scripts) } else { Seq::empty() })
}

impl Skill {
    /// The skill as Markdown: front matter between "---" lines, the content,
    /// then a "## References" and a "## Scripts" section when there are any.
    /// `front_matter` is the metadata written as YAML.
    pub fn to_markdown(&self, front_matter: &str) -> (md: String)
        ensures
            md@ == skill_markdown(self@, front_matter@),
    {
        let ghost rv = references_view(self.references@);
        let ghost sv = scripts_view(self.scripts@);
        let mut md = owned("---\n");
        md.append(front_matter);
        md.append("---\n\n");
        md.append(self.content.as_str());
        let ghost head = md@;
        if self.references.len() > 0 {
            md.append("\n\n## References\n\n");
            let ghost start = md@;
            let mut i: usize = 0;
            assert(rv.subrange(0, 0) =~= Seq::<SkillReferenceView>::empty());
            assert(md@ =~= start + references_md(rv.subrange(0, 0)));
            while i < self.references.len()
                invariant
                    rv == references_view(self.references@),
                    i <= self.references@.len(),
                    md@ == start + references_md(rv.subrange(0, i as int)),
                decreases self.references.len() - i,
            {
                let r = &self.references[i];
                md.append("### ");
                md.append(r.name.as_str());
                md.append("\n\n");
                md.append(r.description.as_str());
                md.append("\n\n");
                assert(rv.subrange(0, i + 1).subrange(0, i as int) =~= rv.subrange(0, i as int));
                assert(md@ =~= start + references_md(rv.subrange(0, i + 1)));
                i = i + 1;
            }
            assert(rv.subrange(0, i as int) =~= rv);
        }
        let ghost mid = md@;
        assert(mid =~= head + (if rv.len() > 0 { "\n\n## References\n\n"@ + references_md(rv) } else { Seq::<char>::empty() }));
        if self.scripts.len() > 0 {
            md.append("\n\n## Scripts\n\n");
            let ghost start = md@;
            let mut i: usize = 0;
            assert(sv.subrange(0, 0) =~= Seq::<SkillScriptView>::empty());
            assert(md@ =~= start + scripts_md(sv.subrange(0, 0)));
            while i < self.scripts.len()
                invariant
                    sv == scripts_view(self.scripts@),
                    i <= self.scripts@.len(),
                    md@ == start + scripts_md(sv.subrange(0, i as int)),
                decreases self.scripts.len() - i,
            {
                let s = &self.scripts[i];
                md.append("### ");
                md.append(s.name.as_str());
                md.append(" (");
                md.append(s.language.as_str());
                md.append(")\n\n");
                md.append("```");
                md.append(s.language.as_str());
                md.append(" \n");
                md.append(s.code.as_str());
                md.append("\n```\n\n");
                assert(sv.subrange(0, i + 1).subrange(0, i as int) =~= sv.subrange(0, i as int));
                assert(md@ =~= start + scripts_md(sv.subrange(0, i + 1)));
                i = i + 1;
            }
            assert(sv.subrange(0, i as int) =~= sv);
        }
        assert(md@ =~= mid + (if sv.len() > 0 { "\n\n## Scripts\n\n"@ + scripts_md(sv) } else { Seq::<char>::empty() }));
        md
    }
}

impl SkillManager {
    /// The front matter and body of a skill file; an error when it lacks the
    /// two "---" that enclose the front matter.
    pub fn split_front_matter(content: &str) -> (r: Result<(String, String), String>)
        ensures
            front_matter_split(content@) matches Some(fb) ==> (r matches Ok(p) && p.0@ == fb.0 && p.1@ == fb.1),
            front_matter_split(content@) is None ==> (r matches Err(e)
                && e@ == "Invalid skill format: missing frontmatter"@),
    {
        let v = chars_of(content);
        let pat = chars_of("---");
        proof {
            reveal_strlit("---");
        }
        match first_match(v.as_slice(), pat.as_slice()) {
            None => Err(owned("Invalid skill format: missing frontmatter")),
            Some(i) => {
                proof {
                    assert forall|k: int| #[trigger] is_first_occurrence(v@, pat@, k) implies k == i by {
                        lemma_first_occurrence_unique(v@, pat@, i as int, k);
                    }
                }
                assert(pat@.len() == 3);
                let n = v.len();
                assert(i + 3 <= n);
                let rest = chars_range(v.as_slice(), i + 3, n);
                assert((choose|k: int| is_first_occurrence(content@, "---"@, k)) == i);
                match first_match(rest.as_slice(), pat.as_slice()) {
                    None => Err(owned("Invalid skill format: missing frontmatter")),
                    Some(j) => {
                        proof {
                            assert forall|k: int| #[trigger] is_first_occurrence(rest@, pat@, k) implies k == j by {
                                lemma_first_occurrence_unique(rest@, pat@, j as int, k);
                            }
                        }
                        let front = string_from_range(rest.as_slice(), 0, j);
                        let body = string_from_range(rest.as_slice(), j + 3, rest.len());
                        Ok((front, body))
                    },
                }
            },
        }
    }

    /// The skill made of parsed front matter and a body: a front matter that
    /// did not parse is an error; otherwise the body's code blocks become its
    /// scripts (see [`parsed_skill`]).
    pub fn skill_from_parts(metadata: Result<SkillMetadata, String>, body: String, file_path: &str) -> (r: Result<Skill, String>)
        ensures
            metadata matches Err(e) ==> (r matches Err(x) && x@ == "Failed to parse skill frontmatter: "@ + e@),
            metadata matches Ok(m) ==> (r matches Ok(sk) && sk@ == parsed_skill(m@, body@, file_path@)),
    {
        let m = match metadata {
            Ok(m) => m,
            Err(e) => return Err(concat2("Failed to parse skill frontmatter: ", e.as_str())),
        };
        let blocks = Self::extract_code_blocks(body.as_str());
        let ghost bv = pairs_view(blocks@);
        let mut skill = Skill::new(m, body);
        skill.file_path = Some(owned(file_path));
        let mut i: usize = 0;
        while i < blocks.len()
            invariant
                bv == pairs_view(blocks@),
                i <= blocks@.len(),
                scripts_view(skill.scripts@) == auto_scripts(bv).subrange(0, i as int),
                skill.references@.len() == 0,
                skill.metadata@ == m@,
                skill.content@ == body@,
                opt_str_view(skill.file_path) == Some(file_path@),
            decreases blocks.len() - i,
        {
            let n = format_u64((i + 1) as u64);
            let script = SkillScript {
                name: concat2("script_", n.as_str()),
                description: owned("Auto-extracted script"),
                language: blocks[i].0.clone(),
                code: blocks[i].1.clone(),
                auto_execute: false,
            };
            let ghost before = skill.scripts@;
            assert(script@ == auto_scripts(bv)[i as int]);
            let ghost sview = script@;
            skill.add_script(script);
            assert(scripts_view(skill.scripts@) =~= scripts_view(before).push(sview));
            assert(auto_scripts(bv).subrange(0, i + 1) =~= auto_scripts(bv).subrange(0, i as int).push(sview));
            assert(scripts_view(skill.scripts@) =~= auto_scripts(bv).subrange(0, i + 1));
            i = i + 1;
        }
        assert(auto_scripts(bv).subrange(0, i as int) =~= auto_scripts(bv));
        assert(references_view(skill.references@) =~= Seq::<SkillReferenceView>::empty());
        Ok(skill)
    }
}

/// How a script of a given language is run.
#[derive(Debug, Clone, Copy, PartialEq, Eq, Structural)]
pub enum ScriptRuntime {
    Bash,
    Python,
    JavaScript,
}

/// The runtime of a script language: "bash" or "sh", "python" or "py",
/// "javascript" or "js"; `None` for any other.
pub open spec fn runtime_for(language: Seq<char>) -> Option<ScriptRuntime> {
    if language == "bash"@ || language == "sh"@ {
        Some(ScriptRuntime::Bash)
    } else if language == "python"@ || language == "py"@ {
        Some(ScriptRuntime::Python)
    } else if language == "javascript"@ || language == "js"@ {
        Some(ScriptRuntime::JavaScript)
    } else {
        None
    }
}

impl ScriptRuntime {
    /// The program that runs the code and the flag that passes it: bash -c,
    /// python3 -c, node -e.
    pub fn command(&self) -> (r: (&'static str, &'static str))
        ensures
            *self == ScriptRuntime::Bash ==> r.0@ == "bash"@ && r.1@ == "-c"@,
            *self == ScriptRuntime::Python ==> r.0@ == "python3"@ && r.1@ == "-c"@,
            *self == ScriptRuntime::JavaScript ==> r.0@ == "node"@ && r.1@ == "-e"@,
    {
        match self {
            ScriptRuntime::Bash => ("bash", "-c"),
            ScriptRuntime::Python => ("python3", "-c"),
            ScriptRuntime::JavaScript => ("node", "-e"),
        }
    }

    /// The message of a run that could not be started: "Failed to execute
    /// <Bash|Python|JavaScript> script: <error>".
    pub fn start_failure(&self, error: &str) -> (m: String)
        ensures
            *self == ScriptRuntime::Bash ==> m@ == "Failed to execute bash script: "@ + error@,
            *self == ScriptRuntime::Python ==> m@ == "Failed to execute Python script: "@ + error@,
            *self == ScriptRuntime::JavaScript ==> m@ == "Failed to execute JavaScript script: "@ + error@,
    {
        match self {
            ScriptRuntime::Bash => concat2("Failed to execute bash script: ", error),
            ScriptRuntime::Python => concat2("Failed to execute Python script: ", error),
            ScriptRuntime::JavaScript => concat2("Failed to execute JavaScript script: ", error),
        }
    }
}

/// `i` is the first script named `name`.
pub open spec fn is_first_script(scripts: Seq<SkillScript>, name: Seq<char>, i: int) -> bool {
    0 <= i < scripts.len() && scripts[i].name@ == name
        && forall|j: int| 0 <= j < i ==> scripts[j].name@ != name
}

/// Where the first script named `name` is.
fn find_script(scripts: &Vec<SkillScript>, name: &str) -> (r: Option<usize>)
    ensures
        r matches Some(i) ==> is_first_script(scripts@, name@, i as int),
        r is None ==> forall|j: int| 0 <= j < scripts@.len() ==> scripts@[j].name@ != name@,
{
    let mut i: usize = 0;
    while i < scripts.len()
        invariant
            i <= scripts@.len(),
            forall|j: int| 0 <= j < i ==> scripts@[j].name@ != name@,
        decreases scripts.len() - i,
    {
        if str_equal(scripts[i].name.as_str(), name) {
            return Some(i);
        }
        i = i + 1;
    }
    None
}

/// Whether one of the skill's triggers occurs in the message.
pub open spec fn triggered_by(sk: Skill, message: Seq<char>) -> bool {
    exists|t: int| 0 <= t < sk.metadata.triggers@.len() && contains_seq(message, #[trigger] sk.metadata.triggers@[t]@)
}

impl SkillManager {
    /// The manager's invariant.
    pub closed spec fn wf(&self) -> bool {
        self.skills.wf()
    }

    /// The loaded skills by name.
    pub closed spec fn skills(&self) -> Map<Seq<char>, Skill> {
        self.skills@
    }

    /// The folder skills are loaded from.
    pub closed spec fn folder(&self) -> Seq<char> {
        self.skills_folder@
    }

    /// Whether skills load on start.
    pub closed spec fn auto_loads(&self) -> bool {
        self.auto_load
    }

    /// A manager with no skills.
    pub fn new(skills_folder: &str, auto_load: bool) -> (m: SkillManager)
        ensures
            m.wf(),
            m.skills() == Map::<Seq<char>, Skill>::empty(),
            m.folder() == skills_folder@,
            m.auto_loads() == auto_load,
    {
        SkillManager { skills: KeyedList::new(), skills_folder: owned(skills_folder), auto_load }
    }

    /// A manager with no skills for the agent configuration's skills section:
    /// its folder, "./skills" when none is named; loading on start unless
    /// the section says otherwise.
    pub fn from_config(config: &crate::config::types::SkillsConfig) -> (m: SkillManager)
        ensures
            m.wf(),
            m.skills() == Map::<Seq<char>, Skill>::empty(),
            m.folder() == match config.skills_folder {
                Some(f) => f@,
                None => "./skills"@,
            },
            m.auto_loads() == match config.auto_load_skills {
                Some(b) => b,
                None => true,
            },
    {
        let auto_load = match config.auto_load_skills {
            Some(b) => b,
            None => true,
        };
        match &config.skills_folder {
            Some(f) => SkillManager::new(f.as_str(), auto_load),
            None => SkillManager::new("./skills", auto_load),
        }
    }

    /// The folder skills are loaded from.
    pub fn skills_folder(&self) -> (f: &str)
        ensures
            f@ == self.folder(),
    {
        self.skills_folder.as_str()
    }

    /// Whether skills load on start.
    pub fn auto_load(&self) -> (b: bool)
        ensures
            b == self.auto_loads(),
    {
        self.auto_load
    }

    /// Keeps a loaded skill under its name, replacing one of the same name,
    /// and hands back a copy.
    pub fn store_skill(&mut self, skill: Skill) -> (r: Skill)
        requires
            old(self).wf(),
        ensures
            final(self).wf(),
            final(self).skills() == old(self).skills().insert(skill.metadata.name@, skill),
            final(self).folder() == old(self).folder(),
            final(self).auto_loads() == old(self).auto_loads(),
            r@ == skill@,
    {
        let copy = skill.duplicate();
        let name = skill.metadata.name.clone();
        self.skills.insert(name, skill);
        copy
    }

    /// The skill named `name`.
    pub fn get_skill(&self, name: &str) -> (r: Option<&Skill>)
        requires
            self.wf(),
        ensures
            r matches Some(s) ==> self.skills().contains_key(name@) && *s == self.skills()[name@],
            r is None ==> !self.skills().contains_key(name@),
    {
        self.skills.get(name)
    }

    /// The names of the loaded skills, in the order they were first stored.
    pub closed spec fn order(&self) -> Seq<Seq<char>> {
        self.skills.names()
    }

    /// The skill a message calls for: the first, in the order skills were
    /// stored, one of whose triggers occurs in the message; none when no
    /// trigger occurs in it.
    pub fn find_skill_by_trigger(&self, message: &str) -> (r: Option<&Skill>)
        requires
            self.wf(),
        ensures
            r matches Some(sk) ==> exists|i: int| 0 <= i < self.order().len()
                && *sk == self.skills()[self.order()[i]]
                && triggered_by(*sk, message@)
                && forall|j: int| 0 <= j < i ==> !triggered_by(#[trigger] self.skills()[self.order()[j]], message@),
            r is None ==> forall|i: int| 0 <= i < self.order().len()
                ==> !triggered_by(#[trigger] self.skills()[self.order()[i]], message@),
    {
        let text = chars_of(message);
        let vs = self.skills.values();
        let mut i: usize = 0;
        while i < vs.len()
            invariant
                i <= vs@.len(),
                vs@.len() == self.order().len(),
                text@ == message@,
                forall|j: int| 0 <= j < vs@.len() ==> *#[trigger] vs@[j] == self.skills()[self.order()[j]],
                forall|j: int| 0 <= j < i ==> !triggered_by(#[trigger] self.skills()[self.order()[j]], message@),
            decreases vs.len() - i,
        {
            let sk: &Skill = vs[i];
            let ts = &sk.metadata.triggers;
            let mut k: usize = 0;
            let mut found = false;
            while k < ts.len()
                invariant
                    k <= ts@.len(),
                    ts@ == sk.metadata.triggers@,
                    text@ == message@,
                    found ==> triggered_by(*sk, message@),
                    !found ==> forall|t: int| 0 <= t < k ==> !contains_seq(message@, (#[trigger] ts@[t])@),
                decreases ts.len() - k,
            {
                if !found {
                    let tc = chars_of(ts[k].as_str());
                    if contains_chars(text.as_slice(), tc.as_slice()) {
                        assert(contains_seq(message@, sk.metadata.triggers@[k as int]@));
                        found = true;
                    }
                }
                k = k + 1;
            }
            if found {
                assert(*sk == self.skills()[self.order()[i as int]]);
                return Some(sk);
            }
            assert(!triggered_by(self.skills()[self.order()[i as int]], message@));
            i = i + 1;
        }
        None
    }

    /// The names of the loaded skills, each once.
    pub fn get_skill_names(&self) -> (names: Vec<String>)
        requires
            self.wf(),
        ensures
            names@.len() == self.skills().dom().len(),
            forall|k: Seq<char>| self.skills().contains_key(k) <==> exists|i: int| 0 <= i < names@.len() && names@[i]@ == k,
            forall|a: int, b: int| 0 <= a < b < names@.len() ==> names@[a]@ != names@[b]@,
    {
        let ks = self.skills.keys();
        proof {
            self.skills.lemma_names();
        }
        ks
    }

    /// The message for a skills folder that does not exist.
    pub fn missing_folder_message(&self) -> (m: String)
        ensures
            m@ == "Skills folder '"@ + self.folder() + "' does not exist"@,
    {
        concat3("Skills folder '", self.skills_folder.as_str(), "' does not exist")
    }

    /// The message for a skill file that could not be read.
    pub fn read_failure_message(file_path: &str, error: &str) -> (m: String)
        ensures
            m@ == "Failed to read skill file '"@ + file_path@ + "': "@ + error@,
    {
        let mut m = concat3("Failed to read skill file '", file_path, "': ");
        m.append(error);
        m
    }

    /// The script to run and how: the skill must be loaded, hold a script of
    /// that name (the first such), and be written in a supported language.
    pub fn script_to_run(&self, skill_name: &str, script_name: &str) -> (r: Result<(ScriptRuntime, String), String>)
        requires
            self.wf(),
        ensures
            !self.skills().contains_key(skill_name@) ==> (r matches Err(e) && e@ == "Skill '"@ + skill_name@ + "' not found"@),
            self.skills().contains_key(skill_name@) ==> ({
                let sk = self.skills()[skill_name@];
                &&& !(exists|i: int| is_first_script(sk.scripts@, script_name@, i)) ==> (r matches Err(e)
                    && e@ == "Script '"@ + script_name@ + "' not found in skill '"@ + skill_name@ + "'"@)
                &&& forall|i: int| #[trigger] is_first_script(sk.scripts@, script_name@, i) ==> ({
                    let sc = sk.scripts@[i];
                    &&& runtime_for(sc.language@) is None ==> (r matches Err(e)
                        && e@ == "Unsupported script language: "@ + sc.language@)
                    &&& runtime_for(sc.language@) matches Some(rt) ==> (r matches Ok(p) && p.0 == rt && p.1@ == sc.code@)
                })
            }),
    {
        let skill = match self.skills.get(skill_name) {
            Some(s) => s,
            None => return Err(concat3("Skill '", skill_name, "' not found")),
        };
        let i = match find_script(&skill.scripts, script_name) {
            Some(i) => i,
            None => {
                let mut m = concat3("Script '", script_name, "' not found in skill '");
                m.append(skill_name);
                m.append("'");
                proof {
                    assert forall|k: int| !#[trigger] is_first_script(skill.scripts@, script_name@, k) by {}
                }
                return Err(m);
            },
        };
        proof {
            assert(is_first_script(skill.scripts@, script_name@, i as int));
            assert forall|k: int| #[trigger] is_first_script(skill.scripts@, script_name@, k) implies k == i by {
                if k < i {
                } else if k > i {
                    assert(skill.scripts@[i as int].name@ == script_name@);
                }
            }
        }
        let script = &skill.scripts[i];
        let lang = script.language.as_str();
        let runtime = if str_equal(lang, "bash") || str_equal(lang, "sh") {
            ScriptRuntime::Bash
        } else if str_equal(lang, "python") || str_equal(lang, "py") {
            ScriptRuntime::Python
        } else if str_equal(lang, "javascript") || str_equal(lang, "js") {
            ScriptRuntime::JavaScript
        } else {
            return Err(concat2("Unsupported script language: ", lang));
        };
        Ok((runtime, script.code.clone()))
    }

    /// The result of a script run: its output and duration on success; the
    /// error of a failed run passes through.
    pub fn execution_result(output: Result<String, String>, duration_ms: u64) -> (r: Result<SkillExecutionResult, String>)
        ensures
            output matches Ok(o) ==> (r matches Ok(x) && x.success && x.output@ == o@ && x.error is None
                && x.duration_ms == duration_ms),
            output matches Err(e) ==> (r matches Err(x) && x@ == e@),
    {
        match output {
            Ok(o) => Ok(SkillExecutionResult { success: true, output: o, error: None, duration_ms }),
            Err(e) => Err(e),
        }
    }
}

} // verus!
