use gx_md::file_writer::{
    create_file_name, create_relative_path, extract_source, parse_into_file, plan_output, GxFile,
    PathError, Plan,
};
use gx_md::parser::run::{str_parser, ErrorKind};

fn strings(parts: &[&str]) -> Vec<String> {
    parts.iter().map(|p| p.to_string()).collect()
}

fn header(dir: &str, file: &str, out_dir: &str, home_file: &str) -> GxFile {
    GxFile {
        dir: dir.to_string(),
        file: file.to_string(),
        out_dir: out_dir.to_string(),
        home_file: home_file.to_string(),
    }
}

fn plan(title: &str, path_src: &str, out_page: &str, out_side: &str) -> Plan {
    Plan {
        title: title.to_string(),
        path_src: path_src.to_string(),
        out_page: out_page.to_string(),
        out_side: out_side.to_string(),
    }
}

#[test]
fn page_name_of_a_header() {
    assert_eq!(create_file_name("foo.h"), "Foo.md");
    assert_eq!(create_file_name("Foo.h"), "Foo.md");
    assert_eq!(create_file_name("my_lib.h"), "My_lib.md");
    assert_eq!(create_file_name("a.h.h"), "A.md.md");
    assert_eq!(create_file_name("hello"), "Hello");
    assert_eq!(create_file_name(".h"), ".md");
    assert_eq!(create_file_name("élan.h"), "élan.md");
    assert_eq!(create_file_name(""), "");
}

#[test]
fn parts_of_a_path() {
    assert_eq!(
        extract_source("/geo/shapes.h", '/'),
        (Some(strings(&["", "geo", "shapes.h"])), Some("shapes.h".to_string()))
    );
    assert_eq!(
        extract_source("\\geo\\shapes.h", '\\'),
        (Some(strings(&["", "geo", "shapes.h"])), Some("shapes.h".to_string()))
    );
    assert_eq!(extract_source("geo/", '/'), (Some(strings(&["geo", ""])), Some(String::new())));
    assert_eq!(extract_source("shapes.h", '/'), (None, Some("shapes.h".to_string())));
    assert_eq!(extract_source("", '/'), (None, Some(String::new())));
}

#[test]
fn relative_paths_of_a_page() {
    assert_eq!(
        create_relative_path(&strings(&["", "geo", "shapes.h"]), "Shapes.md", false),
        Some(("/geo/Shapes/Shapes.md".to_string(), "/geo/Shapes/_Sidebar.md".to_string()))
    );
    assert_eq!(
        create_relative_path(&strings(&["shapes.h"]), "Shapes.md", false),
        Some(("Shapes/Shapes.md".to_string(), "Shapes/_Sidebar.md".to_string()))
    );
}

#[test]
fn relative_paths_of_the_home_page() {
    assert_eq!(
        create_relative_path(&strings(&["", "geo", "shapes.h"]), "Shapes.md", true),
        Some(("/geo/Home.md".to_string(), "/geo/_Sidebar.md".to_string()))
    );
    assert_eq!(
        create_relative_path(&strings(&["", "shapes.h"]), "Shapes.md", true),
        Some(("/Home.md".to_string(), "/_Sidebar.md".to_string()))
    );
    assert_eq!(
        create_relative_path(&strings(&["shapes.h"]), "anything", true),
        Some(("/Home.md".to_string(), "/_Sidebar.md".to_string()))
    );
}

#[test]
fn relative_paths_need_parts_and_a_page_name() {
    assert_eq!(create_relative_path(&strings(&[]), "Shapes.md", false), None);
    assert_eq!(create_relative_path(&strings(&[]), "Shapes.md", true), None);
    assert_eq!(create_relative_path(&strings(&["", "shapes.h"]), "Shapes.h", false), None);
    assert_eq!(create_relative_path(&strings(&["", "shapes.h"]), "md", false), None);
}

#[test]
fn plan_for_a_header() {
    assert_eq!(
        plan_output(&header("src", "src/geo/shapes.h", "out", "lib.h")),
        Ok(plan("shapes.h", "/geo/shapes.h", "out/geo/Shapes/Shapes.md", "out/geo/Shapes/_Sidebar.md"))
    );
    assert_eq!(
        plan_output(&header("src/", "src/shapes.h", "out/", "lib.h")),
        Ok(plan("shapes.h", "/shapes.h", "out/Shapes/Shapes.md", "out/Shapes/_Sidebar.md"))
    );
    assert_eq!(
        plan_output(&header("src\\", "src\\geo\\shapes.h", "out\\", "lib.h")),
        Ok(plan(
            "shapes.h",
            "\\geo\\shapes.h",
            "out/geo/Shapes/Shapes.md",
            "out/geo/Shapes/_Sidebar.md"
        ))
    );
}

#[test]
fn plan_for_the_home_header() {
    assert_eq!(
        plan_output(&header("src", "src/lib.h", "out", "lib.h")),
        Ok(plan("lib.h", "/lib.h", "out/Home.md", "out/_Sidebar.md"))
    );
    assert_eq!(
        plan_output(&header("src", "src/geo/lib.h", "out", "/geo/lib.h")),
        Ok(plan("lib.h", "/geo/lib.h", "out/geo/Home.md", "out/geo/_Sidebar.md"))
    );
    assert_eq!(
        plan_output(&header("src", "src/geo/lib.h", "out", "lib.h")),
        Ok(plan("lib.h", "/geo/lib.h", "out/geo/Lib/Lib.md", "out/geo/Lib/_Sidebar.md"))
    );
}

#[test]
fn plan_fails_outside_the_source_directory() {
    assert_eq!(
        plan_output(&header("src", "other/shapes.h", "out", "lib.h")),
        Err(PathError::OutsideSourceDir)
    );
    assert_eq!(plan_output(&header("src", "src", "out", "lib.h")), Err(PathError::OutsideSourceDir));
    assert_eq!(plan_output(&header("", "", "out", "lib.h")), Err(PathError::OutsideSourceDir));
}

#[test]
fn plan_fails_without_directory() {
    assert_eq!(plan_output(&header("", "shapes.h", "out", "lib.h")), Err(PathError::NoDirectory));
    assert_eq!(plan_output(&header("sr", "src.h", "out", "lib.h")), Err(PathError::NoDirectory));
}

#[test]
fn plan_fails_without_page_name() {
    assert_eq!(
        plan_output(&header("src", "src/geo/shapes.hpp", "out", "lib.h")),
        Err(PathError::NotAPage)
    );
    assert_eq!(
        plan_output(&header("src", "src/geo/README", "out", "lib.h")),
        Err(PathError::NotAPage)
    );
}

#[test]
fn header_is_parsed_into_its_page() {
    let fo = header("src", "src/geo/shapes.h", "out", "/geo/base.h");
    let lines = strings(&["///! Shapes", "#include \"base.h\"", "//! Area.", "int area(int w, int h);", "struct Open {"]);
    let (plan, page, errors) = parse_into_file(&fo, &lines).expect("a plan");
    assert_eq!(plan, plan_output(&fo).unwrap());
    assert_eq!(page.title, "shapes.h");
    assert_eq!(page.path_src, "/geo/shapes.h");
    assert_eq!(page.left_side, None);
    let (content, same_errors) = str_parser(&lines, "/geo/base.h");
    assert_eq!(page.md, Some(content));
    assert_eq!(errors, same_errors);
    assert_eq!(errors.len(), 1);
    assert_eq!(errors[0].kind, ErrorKind::UnterminatedBlock);
    assert_eq!(
        page.render_content(),
        "# shapes.h\n*/geo/shapes.h*\n\n---\n\n Shapes\
\n### **Functions:**\n\n---\n\n\
* #### **area**\n\t```c\n\tint area(int w, int h);\n\t```\n\n\n\tArea.\
\n### **Includes:**\n\n---\n\n\
* #### **base.h**\n\t```c\n[base.h](Home)\n\t```\n"
    );
    assert_eq!(
        page.render_side_bar(),
        Some(
            "#### **Objects (0)**\n\n#### **Functions (1)**\n* [area](#area)\n\
#### **Includes (1)**\n* [base.h](Home)"
                .to_string()
        )
    );
}

#[test]
fn header_without_place_is_not_parsed() {
    let fo = header("src", "elsewhere/shapes.h", "out", "lib.h");
    assert_eq!(parse_into_file(&fo, &strings(&["int f(int a);"])), Err(PathError::OutsideSourceDir));
}
