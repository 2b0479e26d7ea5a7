use agent_runtime_rs::json::JsonValue;
use agent_runtime_rs::skill::types::ScriptRuntime;
use agent_runtime_rs::skill::{Skill, SkillManager, SkillMetadata, SkillReference, SkillScript};
use agent_runtime_rs::skills::loader::SkillLoaderError;
use agent_runtime_rs::skills::types::SkillMetadata as DocSkillMetadata;
use agent_runtime_rs::skills::{Skill as DocSkill, SkillLoader, SkillReferenceTool};

fn meta(name: &str) -> SkillMetadata {
    let mut m = SkillMetadata::default();
    m.name = name.to_string();
    m
}

#[test]
fn test_skill_metadata_default() {
    let metadata = SkillMetadata::default();
    assert_eq!(metadata.name, "unnamed-skill");
    assert_eq!(metadata.version, "1.0.0");
    assert!(metadata.triggers.is_empty());
}

#[test]
fn test_extract_code_blocks() {
    let markdown = "\n# Test\n\n```bash\necho \"Hello\"\n```\n\n```python\nprint(\"World\")\n```\n";
    let blocks = SkillManager::extract_code_blocks(markdown);
    assert_eq!(blocks.len(), 2);
    assert_eq!(blocks[0].0, "bash");
    assert_eq!(blocks[0].1.trim(), "echo \"Hello\"");
    assert_eq!(blocks[1].0, "python");
    assert_eq!(blocks[1].1.trim(), "print(\"World\")");
}

#[test]
fn test_parse_markdown_skill() {
    let markdown = "---\nname: test-skill\ndescription: A test skill\nversion: 1.0.0\ntriggers:\n  - test\n  - example\ntags:\n  - test\n  - example\n---\n\n# Test Skill\n\nThis is a test skill.\n\n```bash\necho \"Hello, World!\"\n```\n\n```python\nprint(\"Hello from Python!\")\n```\n";
    let (front, body) = SkillManager::split_front_matter(markdown).unwrap();
    assert!(front.contains("name: test-skill"));
    let mut metadata = meta("test-skill");
    metadata.description = "A test skill".to_string();
    metadata.triggers = vec!["test".to_string(), "example".to_string()];
    let skill = SkillManager::skill_from_parts(Ok(metadata), body, "test.md").unwrap();
    assert_eq!(skill.metadata.name, "test-skill");
    assert_eq!(skill.metadata.description, "A test skill");
    assert_eq!(skill.metadata.version, "1.0.0");
    assert_eq!(skill.metadata.triggers.len(), 2);
    assert_eq!(skill.scripts.len(), 2);
    assert_eq!(skill.scripts[0].language, "bash");
    assert_eq!(skill.scripts[1].language, "python");
    assert_eq!(skill.scripts[1].name, "script_2");
    assert_eq!(skill.file_path, Some("test.md".to_string()));
}

#[test]
fn skill_file_without_front_matter_is_refused() {
    assert_eq!(
        SkillManager::split_front_matter("# no front matter").unwrap_err(),
        "Invalid skill format: missing frontmatter"
    );
    assert_eq!(
        SkillManager::skill_from_parts(Err("bad yaml".to_string()), String::new(), "x.md").unwrap_err(),
        "Failed to parse skill frontmatter: bad yaml"
    );
}

#[test]
fn skill_markdown_sections() {
    let mut skill = Skill::new(meta("s"), "Body".to_string());
    skill.add_reference(SkillReference { name: "ref".to_string(), description: "about".to_string(), content: None });
    skill.add_script(SkillScript {
        name: "run".to_string(),
        description: "d".to_string(),
        language: "bash".to_string(),
        code: "echo hi".to_string(),
        auto_execute: false,
    });
    let md = skill.to_markdown("name: s\n");
    assert_eq!(
        md,
        "---\nname: s\n---\n\nBody\n\n## References\n\n### ref\n\nabout\n\n\n\n## Scripts\n\n### run (bash)\n\n```bash \necho hi\n```\n\n"
    );
}

#[test]
fn skill_manager_keeps_and_runs_scripts() {
    let mut manager = SkillManager::new("./skills", true);
    assert_eq!(manager.skills_folder(), "./skills");
    let mut skill = Skill::new(meta("greet"), "Hi".to_string());
    skill.add_script(SkillScript {
        name: "script_1".to_string(),
        description: "Auto-extracted script".to_string(),
        language: "sh".to_string(),
        code: "echo hi".to_string(),
        auto_execute: false,
    });
    skill.add_script(SkillScript {
        name: "script_2".to_string(),
        description: "Auto-extracted script".to_string(),
        language: "ruby".to_string(),
        code: "puts 1".to_string(),
        auto_execute: false,
    });
    let stored = manager.store_skill(skill);
    assert_eq!(stored.metadata.name, "greet");
    assert_eq!(manager.get_skill_names(), vec!["greet".to_string()]);
    let (runtime, code) = manager.script_to_run("greet", "script_1").unwrap();
    assert_eq!(runtime, ScriptRuntime::Bash);
    assert_eq!(code, "echo hi");
    assert_eq!(runtime.command(), ("bash", "-c"));
    assert_eq!(manager.script_to_run("nope", "x").unwrap_err(), "Skill 'nope' not found");
    assert_eq!(manager.script_to_run("greet", "x").unwrap_err(), "Script 'x' not found in skill 'greet'");
    assert_eq!(manager.script_to_run("greet", "script_2").unwrap_err(), "Unsupported script language: ruby");
    let result = SkillManager::execution_result(Ok("hi\n".to_string()), 12).unwrap();
    assert!(result.success && result.duration_ms == 12);
}

fn doc_skill(slug: &str, name: &str, description: &str, content: &str) -> (String, JsonValue, String) {
    (
        slug.to_string(),
        JsonValue::Object(vec![("slug".to_string(), JsonValue::Str(slug.to_string()))]),
        format!("---\nname: {}\ndescription: {}\n---\n\n{}", name, description, content),
    )
}

fn loaded(skills: Vec<(String, JsonValue, String)>) -> SkillLoader {
    let mut loader = SkillLoader::new("skills".to_string());
    for (slug, meta, md) in skills {
        loader.load_skill(&slug, meta, md).unwrap();
    }
    loader
}

#[test]
fn test_skill_loader_creation() {
    let loader = SkillLoader::new("skills".to_string());
    assert_eq!(loader.skills_dir(), "skills");
    assert_eq!(loader.list_skills().len(), 0);
}

#[test]
fn test_load_single_skill() {
    let mut loader = SkillLoader::new("skills".to_string());
    let (slug, meta, md) = doc_skill("test-skill", "Test Skill", "A test skill", "# Test Content");
    let skill = loader.load_skill(&slug, meta, md).unwrap();
    assert_eq!(skill.slug, "test-skill");
    assert_eq!(skill.skill_metadata.name, "Test Skill");
    assert_eq!(skill.content, "# Test Content");
}

#[test]
fn test_load_multiple_skills() {
    let loader = loaded(vec![
        doc_skill("skill1", "Skill 1", "First skill", "# Skill 1"),
        doc_skill("skill2", "Skill 2", "Second skill", "# Skill 2"),
        doc_skill("skill3", "Skill 3", "Third skill", "# Skill 3"),
    ]);
    assert_eq!(loader.list_skills().len(), 3);
}

#[test]
fn test_get_skill() {
    let loader = loaded(vec![doc_skill("test-skill", "Test Skill", "A test skill", "# Test")]);
    let skill = loader.get_skill("test-skill");
    assert!(skill.is_some());
    assert_eq!(skill.unwrap().slug, "test-skill");
    assert!(loader.get_skill("non-existent").is_none());
}

#[test]
fn test_list_skills() {
    let loader = loaded(vec![doc_skill("skill1", "Skill 1", "First", "# 1"), doc_skill("skill2", "Skill 2", "Second", "# 2")]);
    assert_eq!(loader.list_skills().len(), 2);
}

#[test]
fn test_search_skills() {
    let loader = loaded(vec![
        doc_skill("python-skill", "Python Helper", "Python programming help", "# Python\n\nUse Python for scripting"),
        doc_skill("rust-skill", "Rust Guide", "Rust programming guide", "# Rust\n\nUse Rust for performance"),
        doc_skill("general-skill", "General Assistant", "General purpose assistant", "# General\n\nHelper for various tasks"),
    ]);
    let results = loader.search_skills("Python");
    assert_eq!(results.len(), 1);
    assert_eq!(results[0].slug, "python-skill");
    assert_eq!(loader.search_skills("programming").len(), 2);
    let results = loader.search_skills("performance");
    assert_eq!(results.len(), 1);
    assert_eq!(results[0].slug, "rust-skill");
    assert_eq!(loader.search_skills("JavaScript").len(), 0);
}

#[test]
fn test_reload_skills() {
    let mut loader = loaded(vec![doc_skill("skill1", "Skill 1", "First", "# 1")]);
    assert_eq!(loader.list_skills().len(), 1);
    loader.clear_skills();
    for (slug, meta, md) in vec![doc_skill("skill1", "Skill 1", "First", "# 1"), doc_skill("skill2", "Skill 2", "Second", "# 2")] {
        loader.load_skill(&slug, meta, md).unwrap();
    }
    assert_eq!(loader.list_skills().len(), 2);
}

#[test]
fn test_load_skills_empty_dir() {
    let loader = SkillLoader::new("empty".to_string());
    assert_eq!(loader.list_skills().len(), 0);
}

#[test]
fn test_parse_skill_markdown_with_frontmatter() {
    let content = "---\nname: Test Skill\ndescription: A test skill\n---\n\n# Content\n\nThis is the content.";
    let result = SkillLoader::parse_skill_markdown(content);
    assert!(result.is_ok());
    let (metadata, remaining) = result.unwrap();
    assert_eq!(metadata.name, "Test Skill");
    assert_eq!(metadata.description, "A test skill");
    assert_eq!(remaining, "# Content\n\nThis is the content.");
}

#[test]
fn test_parse_skill_markdown_without_frontmatter() {
    let content = "# Content\n\nThis is the content without front matter.";
    let (metadata, remaining) = SkillLoader::parse_skill_markdown(content).unwrap();
    assert_eq!(metadata.name, "Unknown");
    assert_eq!(metadata.description, "No description");
    assert_eq!(remaining, "# Content\n\nThis is the content without front matter.");
}

#[test]
fn test_parse_skill_markdown_with_complex_yaml() {
    let content = "---\nname: Complex Skill\ndescription: A complex skill\nversion: 1.0\nauthor: Test Author\ntags: [rust, programming, tutorial]\n---\n\n# Complex Content";
    let (metadata, _remaining) = SkillLoader::parse_skill_markdown(content).unwrap();
    assert_eq!(metadata.name, "Complex Skill");
    assert_eq!(metadata.description, "A complex skill");
    assert!(metadata.metadata.is_some());
    let keys: Vec<String> = metadata.metadata.unwrap().into_iter().map(|(k, _)| k).collect();
    assert!(keys.contains(&"version".to_string()));
    assert!(keys.contains(&"author".to_string()));
    assert!(keys.contains(&"tags".to_string()));
}

#[test]
fn bad_yaml_is_a_yaml_error() {
    match SkillLoader::parse_skill_markdown("---\nname: [unclosed\n---\nbody") {
        Err(SkillLoaderError::Yaml(_)) => {}
        _ => panic!("expected a YAML error"),
    }
}

fn reference_skill(slug: &str, name: &str, description: &str, content: &str) -> DocSkill {
    DocSkill {
        slug: slug.to_string(),
        metadata: JsonValue::Object(vec![("name".to_string(), JsonValue::Str("test".to_string()))]),
        skill_metadata: DocSkillMetadata { name: name.to_string(), description: description.to_string(), metadata: None },
        content: content.to_string(),
        full_content: format!("---\nname: {}\n---\n\n{}", name, content),
    }
}

#[test]
fn test_skill_reference_tool_creation() {
    let skill = reference_skill("test-skill", "Test Skill", "A test skill", "# Test Skill Content\n\nThis is test content.");
    let tool = SkillReferenceTool::new(&skill);
    assert_eq!(tool.skill_id, "test-skill");
    assert_eq!(tool.skill_name, "Test Skill");
    assert_eq!(tool.tool_metadata.description, "A test skill");
    assert!(tool.skill_content.contains("Test Skill Content"));
}

#[test]
fn test_skill_reference_tool_metadata() {
    let skill = reference_skill("my-skill", "My Skill", "My skill description", "content");
    let tool = SkillReferenceTool::new(&skill);
    let metadata = tool.metadata();
    assert_eq!(metadata.name, "skill/my-skill");
    assert_eq!(metadata.description, "My skill description");
    assert_eq!(metadata.parameters.len(), 0);
}

#[test]
fn skill_reference_tool_returns_content() {
    let skill = reference_skill("test-skill", "Test Skill", "A test skill", "# Test Content");
    let tool = SkillReferenceTool::new(&skill);
    let result = tool.execute(&JsonValue::Object(vec![])).unwrap();
    assert!(result.success);
    assert_eq!(result.output, "# Test Content");
    assert!(result.error.is_none());
}

#[test]
fn the_first_skill_whose_trigger_occurs_is_found() {
    let mut manager = SkillManager::new("./skills", true);
    let mut weather = meta("weather");
    weather.triggers = vec!["forecast".to_string(), "rain".to_string()];
    let mut maps = meta("maps");
    maps.triggers = vec!["route".to_string(), "rain".to_string()];
    manager.store_skill(Skill::new(weather, "W".to_string()));
    manager.store_skill(Skill::new(maps, "M".to_string()));
    assert_eq!(manager.find_skill_by_trigger("will it rain?").unwrap().metadata.name, "weather");
    assert_eq!(manager.find_skill_by_trigger("best route home").unwrap().metadata.name, "maps");
    assert!(manager.find_skill_by_trigger("hello").is_none());
}
