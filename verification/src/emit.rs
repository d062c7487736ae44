//! The descriptor emitter: serializes one component's schema and default
//! arguments into the text artifact the external preview tool imports. The
//! caller writes the text under the output directory, one file per
//! component; writing is best-effort and outside this module.

use vstd::prelude::*;
use vstd::string::StringExecFns;

use crate::registry::arg_views;
use crate::schema::ArgType;
use crate::schema::ArgTypeV;
use crate::schema::ControlType;
use crate::strutil::new_string;

verus! {

/// The lowercase name a control kind is written with.
pub open spec fn spec_control_name(c: ControlType) -> Seq<char> {
    match c {
        ControlType::Text => "text"@,
        ControlType::Select => "select"@,
        ControlType::Color => "color"@,
        ControlType::Boolean => "boolean"@,
        ControlType::Number => "number"@,
    }
}

/// One schema-table entry: the argument's control kind and label, an
/// embedded option-lookup call for a select, and a required marker.
pub open spec fn spec_arg_row(a: ArgTypeV) -> Seq<char> {
    "    "@ + a.name + ": {\n      control: '"@ + spec_control_name(a.control)
        + "',\n      description: '"@ + a.name + "'"@ + (match a.select_ty {
        Some(t) => ", options: get_enum_options('"@ + t + "')"@,
        None => ""@,
    }) + (if a.required {
        ", table: { category: 'required' }"@
    } else {
        ""@
    }) + "\n    }"@
}

/// The schema-table entries, one per argument, comma-separated.
pub open spec fn spec_arg_rows(args: Seq<ArgTypeV>) -> Seq<char>
    decreases args.len(),
{
    if args.len() == 0 {
        ""@
    } else if args.len() == 1 {
        spec_arg_row(args[0])
    } else {
        spec_arg_rows(args.drop_last()) + ",\n"@ + spec_arg_row(args.last())
    }
}

/// One default-argument entry: the argument's name and its string-encoded
/// default as it stands in the schema.
pub open spec fn spec_default_row(a: ArgTypeV) -> Seq<char> {
    "  "@ + a.name + ": "@ + a.default_value
}

/// The default-argument entries, one per argument, comma-separated.
pub open spec fn spec_default_rows(args: Seq<ArgTypeV>) -> Seq<char>
    decreases args.len(),
{
    if args.len() == 0 {
        ""@
    } else if args.len() == 1 {
        spec_default_row(args[0])
    } else {
        spec_default_rows(args.drop_last()) + ",\n"@ + spec_default_row(args.last())
    }
}

/// The whole artifact: the preview tool's module preamble, the component's
/// title, its schema table, its render template, and its default arguments.
pub open spec fn spec_artifact(name: Seq<char>, args: Seq<ArgTypeV>) -> Seq<char> {
    "import init, { register_all_stories, render_story, get_enum_options, init_enums } from '../../example/pkg/example.js';\n\n// Initialize WASM\nawait init();\n\nconsole.log('About to call init_enums...');\ninit_enums();\nconsole.log('init_enums called');\n\nregister_all_stories();\n\n// Define the story with populated enum options\nexport default {\n  title: 'Components/"@
        + name + "',\n  argTypes: {\n"@ + spec_arg_rows(args)
        + "\n  },\n};\n\nconst Template = (args) => {\n  const container = document.createElement('div');\n  const dom = render_story('"@
        + name + "', args);\n  container.appendChild(dom);\n  return container;\n};\n\nexport const Default = Template.bind({});\nDefault.args = {\n"@
        + spec_default_rows(args) + "\n};\n"@
}

fn control_name(c: ControlType) -> (r: &'static str)
    ensures
        r@ == spec_control_name(c),
{
    match c {
        ControlType::Text => "text",
        ControlType::Select => "select",
        ControlType::Color => "color",
        ControlType::Boolean => "boolean",
        ControlType::Number => "number",
    }
}

fn arg_row(a: &ArgType) -> (r: String)
    ensures
        r@ == spec_arg_row(a@),
{
    proof {
        reveal_strlit("");
    }
    let mut r = new_string("    ");
    r.append(a.name.as_str());
    r.append(": {\n      control: '");
    r.append(control_name(a.control));
    r.append("',\n      description: '");
    r.append(a.name.as_str());
    r.append("'");
    match &a.select_ty {
        Some(t) => {
            r.append(", options: get_enum_options('");
            r.append(t.as_str());
            r.append("')");
        },
        None => {},
    }
    if a.required {
        r.append(", table: { category: 'required' }");
    }
    r.append("\n    }");
    proof {
        assert(r@ =~= spec_arg_row(a@));
    }
    r
}

fn default_row(a: &ArgType) -> (r: String)
    ensures
        r@ == spec_default_row(a@),
{
    let mut r = new_string("  ");
    r.append(a.name.as_str());
    r.append(": ");
    r.append(a.default_value.as_str());
    proof {
        assert(r@ =~= spec_default_row(a@));
    }
    r
}

fn arg_rows(args: &Vec<ArgType>) -> (r: String)
    ensures
        r@ == spec_arg_rows(arg_views(args@)),
{
    let mut r = String::new();
    let n = args.len();
    let mut i: usize = 0;
    proof {
        reveal_strlit("");
        assert(""@ =~= Seq::<char>::empty());
        assert(arg_views(args@).take(0) =~= Seq::<ArgTypeV>::empty());
    }
    while i < n
        invariant
            n == args@.len(),
            0 <= i <= n,
            r@ == spec_arg_rows(arg_views(args@).take(i as int)),
        decreases n - i,
    {
        proof {
            reveal_strlit("");
            assert(""@ =~= Seq::<char>::empty());
            assert(arg_views(args@).take(i + 1).drop_last() =~= arg_views(args@).take(i as int));
            assert(arg_views(args@).take(i + 1).last() == args@[i as int]@);
        }
        if i > 0 {
            r.append(",\n");
        }
        let row = arg_row(&args[i]);
        r.append(row.as_str());
        proof {
            if i == 0 {
                assert(r@ =~= spec_arg_rows(arg_views(args@).take(1)));
            }
        }
        i += 1;
    }
    proof {
        assert(arg_views(args@).take(n as int) =~= arg_views(args@));
    }
    r
}

fn default_rows(args: &Vec<ArgType>) -> (r: String)
    ensures
        r@ == spec_default_rows(arg_views(args@)),
{
    let mut r = String::new();
    let n = args.len();
    let mut i: usize = 0;
    proof {
        reveal_strlit("");
        assert(""@ =~= Seq::<char>::empty());
        assert(arg_views(args@).take(0) =~= Seq::<ArgTypeV>::empty());
    }
    while i < n
        invariant
            n == args@.len(),
            0 <= i <= n,
            r@ == spec_default_rows(arg_views(args@).take(i as int)),
        decreases n - i,
    {
        proof {
            reveal_strlit("");
            assert(""@ =~= Seq::<char>::empty());
            assert(arg_views(args@).take(i + 1).drop_last() =~= arg_views(args@).take(i as int));
            assert(arg_views(args@).take(i + 1).last() == args@[i as int]@);
        }
        if i > 0 {
            r.append(",\n");
        }
        let row = default_row(&args[i]);
        r.append(row.as_str());
        proof {
            if i == 0 {
                assert(r@ =~= spec_default_rows(arg_views(args@).take(1)));
            }
        }
        i += 1;
    }
    proof {
        assert(arg_views(args@).take(n as int) =~= arg_views(args@));
    }
    r
}

/// Serializes one component's descriptor artifact from its name and its
/// inferred argument schema.
pub fn generate_storybook_js(name: &str, args: &Vec<ArgType>) -> (r: String)
    ensures
        r@ == spec_artifact(name@, arg_views(args@)),
{
    let mut r = new_string(
        "import init, { register_all_stories, render_story, get_enum_options, init_enums } from '../../example/pkg/example.js';\n\n// Initialize WASM\nawait init();\n\nconsole.log('About to call init_enums...');\ninit_enums();\nconsole.log('init_enums called');\n\nregister_all_stories();\n\n// Define the story with populated enum options\nexport default {\n  title: 'Components/",
    );
    r.append(name);
    r.append("',\n  argTypes: {\n");
    let rows = arg_rows(args);
    r.append(rows.as_str());
    r.append(
        "\n  },\n};\n\nconst Template = (args) => {\n  const container = document.createElement('div');\n  const dom = render_story('",
    );
    r.append(name);
    r.append("', args);\n  container.appendChild(dom);\n  return container;\n};\n\nexport const Default = Template.bind({});\nDefault.args = {\n");
    let defaults = default_rows(args);
    r.append(defaults.as_str());
    r.append("\n};\n");
    proof {
        assert(r@ =~= spec_artifact(name@, arg_views(args@)));
    }
    r
}

} // verus!
