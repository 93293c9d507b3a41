use vstd::prelude::*;
use vstd::string::*;

use crate::prompts::{get_system_prompt, prompt_for};

verus! {

/// The result of one tool call, as sent back to the model.
#[derive(Debug, Clone)]
pub struct ToolResult {
    pub result_type: String,
    pub tool_use_id: String,
    pub content: String,
    pub is_error: Option<bool>,
    pub thought_signature: Option<String>,
}

impl ToolResult {
    /// A successful result carrying `content`.
    pub fn success(tool_use_id: String, content: String) -> (r: Self)
        ensures
            r.result_type@ == "tool_result"@,
            r.tool_use_id == tool_use_id,
            r.content == content,
            r.is_error == None::<bool>,
            r.thought_signature == None::<String>,
    {
        ToolResult {
            result_type: String::from_str("tool_result"),
            tool_use_id,
            content,
            is_error: None,
            thought_signature: None,
        }
    }

    /// A failed result carrying the message `error`.
    pub fn error(tool_use_id: String, error: String) -> (r: Self)
        ensures
            r.result_type@ == "tool_result"@,
            r.tool_use_id == tool_use_id,
            r.content == error,
            r.is_error == Some(true),
            r.thought_signature == None::<String>,
    {
        ToolResult {
            result_type: String::from_str("tool_result"),
            tool_use_id,
            content: error,
            is_error: Some(true),
            thought_signature: None,
        }
    }
}

/// One step of the plan that the agent announces.
#[derive(Debug, Clone)]
pub struct PlanStepInfo {
    pub step: i32,
    pub description: String,
}

/// A skill that the agent may use, as listed in its system prompt.
#[derive(Debug, Clone)]
pub struct SkillSummary {
    pub name: String,
    pub description: String,
}

/// The tools that an agent may call unless configured otherwise.
pub open spec fn default_tools() -> Seq<Seq<char>> {
    seq![
        "read_file"@,
        "write_file"@,
        "edit_file"@,
        "bash"@,
        "glob"@,
        "grep"@,
        "list_dir"@,
        "move_file"@,
        "delete_file"@,
        "docker_run"@,
        "docker_list"@,
        "docker_images"@,
    ]
}

/// Settings of one agent run.
#[derive(Debug, Clone)]
pub struct AgentConfig {
    pub system_prompt: String,
    pub max_turns: u32,
    pub project_path: Option<String>,
    pub allowed_tools: Vec<String>,
}

impl Default for AgentConfig {
    /// The English prompt with no skills, twenty turns, no project, and the
    /// default tools.
    fn default() -> (r: Self)
        ensures
            r.system_prompt@ == system_prompt_of(None, Seq::empty(), Seq::empty()),
            r.max_turns == 20,
            r.project_path == None::<String>,
            r.allowed_tools@.len() == default_tools().len(),
            forall|i: int|
                0 <= i < default_tools().len() ==> #[trigger] r.allowed_tools@[i]@ == default_tools()[i],
    {
        let no_skills: Vec<SkillSummary> = Vec::new();
        let tools = vec![
            String::from_str("read_file"),
            String::from_str("write_file"),
            String::from_str("edit_file"),
            String::from_str("bash"),
            String::from_str("glob"),
            String::from_str("grep"),
            String::from_str("list_dir"),
            String::from_str("move_file"),
            String::from_str("delete_file"),
            String::from_str("docker_run"),
            String::from_str("docker_list"),
            String::from_str("docker_images"),
        ];
        AgentConfig {
            system_prompt: build_system_prompt(None, &no_skills, ""),
            max_turns: 20,
            project_path: None,
            allowed_tools: tools,
        }
    }
}

pub const SKILLS_HEADER: &'static str = "\n\n## Available Skills\nSkills are located in ";

pub const SKILLS_MOUNT_NOTE: &'static str = " (auto-mounted at /skills in Docker):\n\n";

pub const SKILLS_USAGE_INTRO: &'static str = "\n### Using Skills\nWhen a user's request matches a skill:\n1. Read the skill's SKILL.md file using read_file tool: `";

pub const SKILLS_USAGE_STEPS: &'static str = "/{skill_name}/SKILL.md`\n2. Follow the instructions in SKILL.md\n3. Load additional referenced files progressively as needed:\n   - `";

pub const SKILLS_FORMS_ITEM: &'static str = "/{skill_name}/forms.md`\n   - `";

pub const SKILLS_USAGE_TAIL: &'static str = "/{skill_name}/reference.md`\n4. Execute scripts using docker_run tool - skills are auto-mounted at /skills\n5. Example: `python /skills/pdf/scripts/extract_text.py /workspace/document.pdf`\n\nNote: The ~ symbol is supported in read_file paths and will expand to the user's home directory.\n";

/// One line per skill: its name in bold, then its description.
pub open spec fn skill_lines(skills: Seq<SkillSummary>) -> Seq<char>
    decreases skills.len(),
{
    if skills.len() == 0 {
        Seq::empty()
    } else {
        skill_lines(skills.drop_last()) + "- **"@ + skills.last().name@ + "**: "@
            + skills.last().description@ + "\n"@
    }
}

/// The section that lists the skills found under `path` and says how to use
/// them.
pub open spec fn skills_section(skills: Seq<SkillSummary>, path: Seq<char>) -> Seq<char> {
    SKILLS_HEADER@ + path + SKILLS_MOUNT_NOTE@ + skill_lines(skills) + SKILLS_USAGE_INTRO@ + path
        + SKILLS_USAGE_STEPS@ + path + SKILLS_FORMS_ITEM@ + path + SKILLS_USAGE_TAIL@
}

/// The system prompt for `locale` (English when none is given), followed by
/// the skills section when there are skills.
pub open spec fn system_prompt_of(
    locale: Option<Seq<char>>,
    skills: Seq<SkillSummary>,
    skills_path: Seq<char>,
) -> Seq<char> {
    let base = prompt_for(
        match locale {
            Some(l) => l,
            None => "en"@,
        },
    );
    if skills.len() == 0 {
        base
    } else {
        base + skills_section(skills, skills_path)
    }
}

/// The system prompt for `locale`, listing `skills`, which live under
/// `skills_path`.
pub fn build_system_prompt(locale: Option<&str>, skills: &Vec<SkillSummary>, skills_path: &str) -> (r: String)
    ensures
        r@ == system_prompt_of(
            match locale {
                Some(l) => Some(l@),
                None => None,
            },
            skills@,
            skills_path@,
        ),
{
    let mut prompt = match locale {
        Some(l) => get_system_prompt(l),
        None => get_system_prompt("en"),
    };
    if skills.len() == 0 {
        return prompt;
    }
    prompt.append(SKILLS_HEADER);
    prompt.append(skills_path);
    prompt.append(SKILLS_MOUNT_NOTE);
    let mut i: usize = 0;
    let ghost base = prompt@;
    while i < skills.len()
        invariant
            i <= skills.len(),
            prompt@ == base + skill_lines(skills@.subrange(0, i as int)),
        decreases skills.len() - i,
    {
        let ghost before = prompt@;
        prompt.append("- **");
        prompt.append(skills[i].name.as_str());
        prompt.append("**: ");
        prompt.append(skills[i].description.as_str());
        prompt.append("\n");
        proof {
            let s = skills@.subrange(0, i + 1);
            assert(s.drop_last() =~= skills@.subrange(0, i as int));
            assert(prompt@ =~= base + skill_lines(s));
        }
        i = i + 1;
    }
    assert(skills@.subrange(0, skills.len() as int) =~= skills@);
    prompt.append(SKILLS_USAGE_INTRO);
    prompt.append(skills_path);
    prompt.append(SKILLS_USAGE_STEPS);
    prompt.append(skills_path);
    prompt.append(SKILLS_FORMS_ITEM);
    prompt.append(skills_path);
    prompt.append(SKILLS_USAGE_TAIL);
    prompt
}

} // verus!
