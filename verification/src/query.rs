//! The Topiary formatting rules for Kotlin.

use vstd::prelude::*;

verus! {

/// Topiary query that describes how Kotlin source is laid out: which nodes
/// are printed verbatim, where spaces and line breaks go, and what is
/// indented.
pub const KOTLIN_QUERY: &'static str = r#"; Topiary formatting rules for Kotlin (tree-sitter-kotlin-ng).

; Literals and comments are printed as they were written.
[
  (string_literal)
  (multiline_string_literal)
  (character_literal)
  (number_literal)
  (float_literal)
  (line_comment)
  (block_comment)
  (shebang)
] @leaf

; A line comment runs to the end of its line.
(line_comment) @append_hardline

; Top level: one item per line, blank lines kept where the input had them.
(source_file
  (_) @allow_blank_line_before @prepend_hardline @append_hardline
)

; Keywords followed by a space.
[
  "package"
  "import"
  "fun"
  "val"
  "var"
  "class"
  "interface"
  "object"
  "typealias"
  "companion"
  "return"
  "throw"
  "if"
  "for"
  "while"
  "when"
  "catch"
    "by"
] @append_space

(modifiers
  (_) @append_space
)

(parameter_modifiers
  (_) @append_space
)

(type_modifiers
  (_) @append_space
)

(annotation) @append_space

; Commas are followed by a space (or a line break where a rule asks for one).
"," @append_space

; Type annotations: `name: Type`.
(parameter ":" @append_space)
(class_parameter ":" @append_space)
(variable_declaration ":" @append_space)
(function_declaration ":" @append_space)
(anonymous_function ":" @append_space)
(getter ":" @append_space)
(setter ":" @append_space)
(catch_block ":" @append_space)
(type_parameter ":" @append_space)
(type_constraint ":" @append_space)

; Supertypes: `class A : B`.
(class_declaration ":" @prepend_space @append_space)
(object_declaration ":" @prepend_space @append_space)
(companion_object ":" @prepend_space @append_space)
(object_literal ":" @append_space)
(secondary_constructor ":" @prepend_space @append_space)

; Equals signs and operators are surrounded by spaces.
(function_body "=" @prepend_space @append_space)
(property_declaration "=" @prepend_space @append_space)
(class_parameter "=" @prepend_space @append_space)
(function_value_parameters "=" @prepend_space @append_space)
(value_argument "=" @prepend_space @append_space)
(type_alias "=" @prepend_space @append_space)
(when_subject "=" @prepend_space @append_space)
(setter "=" @prepend_space @append_space)
(assignment operator: _ @prepend_space @append_space)
(binary_expression operator: _ @prepend_space @append_space)
(in_expression ["in" "!in"] @prepend_space @append_space)
(is_expression ["is" "!is"] @prepend_space @append_space)
(as_expression ["as" "as?"] @prepend_space @append_space)
(range_test ["in" "!in"] @append_space)
(type_test ["is" "!is"] @append_space)
(for_statement "in" @prepend_space @append_space)
(infix_expression (_) . (identifier) @prepend_space @append_space . (_))
(property_delegate "by" @prepend_space)
(explicit_delegation "by" @prepend_space)
(function_type "->" @prepend_space @append_space)
(when_entry "->" @prepend_space @append_space)
(lambda_literal "->" @prepend_space @append_space)
(non_nullable_type "&" @prepend_space @append_space)

; Control flow.
(if_expression ")" @append_space)
(if_expression "else" @prepend_space @append_space)
(for_statement ")" @append_space)
(while_statement ")" @append_space)
(do_while_statement "while" @prepend_space)
(catch_block) @prepend_space
(finally_block) @prepend_space
(anonymous_initializer "init" @append_space)

; Blocks: an opening brace after a space, each statement on a line of its own,
; indented; an empty block stays `{}`.
(block "{" @prepend_space @append_indent_start)
(block "}" @prepend_indent_end)
(block
  (_) @allow_blank_line_before @prepend_hardline @append_hardline
)

; Class bodies: the same layout for members.
(class_body "{" @prepend_space @append_indent_start)
(class_body "}" @prepend_indent_end)
(class_body
  (_) @allow_blank_line_before @prepend_hardline @append_hardline
)

; Enum bodies: one entry per line.
(enum_class_body "{" @prepend_space @append_indent_start)
(enum_class_body "}" @prepend_hardline @prepend_indent_end)
(enum_class_body
  (_) @allow_blank_line_before @prepend_hardline
)

; `when`: one entry per line.
(when_expression "{" @prepend_space @append_indent_start)
(when_expression "}" @prepend_indent_end)
(when_expression
  (when_entry) @allow_blank_line_before @prepend_hardline @append_hardline
)

; Lambdas keep their layout: on one line they read `{ x -> x * x }`.
(annotated_lambda) @prepend_space
(lambda_literal "{" @append_space @append_indent_start)
(lambda_literal "}" @prepend_spaced_softline @prepend_indent_end)
(lambda_literal
  (statement) @prepend_spaced_softline
)
"#;

} // verus!
