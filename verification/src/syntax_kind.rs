//! The kinds of node that the SourcePawn grammar gives a syntax tree.

use vstd::prelude::*;

verus! {

/// The number of node kinds that [`TSKind`] names.
pub const TS_KIND_COUNT: u16 = 272;

/// A kind of node in a SourcePawn syntax tree. The variants stand in the
/// order of the grammar's own numbering: the n-th variant is the kind that
/// the grammar numbers n.
#[allow(non_camel_case_types)]
#[derive(Clone, Copy, PartialEq, Eq, Structural, PartialOrd, Ord, Hash, Debug)]
pub enum TSKind {
    anon_end,
    identifier,
    anon_LPAREN,
    anon_RPAREN,
    anon_BANG,
    anon_TILDE,
    anon_DASH,
    anon_PLUS,
    anon_AMP,
    anon_DOT_DOT_DOT,
    anon_STAR,
    anon_SLASH,
    anon_PERCENT,
    anon_PIPE_PIPE,
    anon_AMP_AMP,
    anon_PIPE,
    anon_CARET,
    anon_EQ_EQ,
    anon_BANG_EQ,
    anon_GT,
    anon_GT_EQ,
    anon_LT_EQ,
    anon_LT,
    anon_LT_LT,
    anon_GT_GT,
    anon_GT_GT_GT,
    anon_POUNDinclude,
    anon_POUNDtryinclude,
    anon_POUNDdefine,
    anon_COMMA,
    macro_param,
    anon_POUNDundef,
    anon_POUNDif,
    anon_POUNDelseif,
    anon_POUNDassert,
    anon_defined,
    preproc_else,
    preproc_endif,
    preproc_endinput,
    anon_POUNDpragma,
    anon_POUNDerror,
    anon_POUNDwarning,
    anon_using__intrinsics__DOTHandle,
    anon_assert,
    anon_static_assert,
    anon_EQ,
    anon_forward,
    anon_native,
    alias_operator,
    anon_operator,
    anon_COLON,
    anon_const,
    anon_public,
    anon_stock,
    anon_static,
    anon_new,
    anon_decl,
    anon_enum,
    anon_PLUS_EQ,
    anon_DASH_EQ,
    anon_STAR_EQ,
    anon_SLASH_EQ,
    anon_PIPE_EQ,
    anon_AMP_EQ,
    anon_CARET_EQ,
    anon_TILDE_EQ,
    anon_LT_LT_EQ,
    anon_GT_GT_EQ,
    anon_LBRACE,
    anon_RBRACE,
    anon_struct,
    anon_typedef,
    anon_typeset,
    anon_function,
    anon_funcenum,
    anon_functag,
    anon_methodmap,
    anon___nullable__,
    anon_property,
    anon_get,
    anon_set,
    anon_LBRACK,
    anon_RBRACK,
    anon_void,
    anon_bool,
    anon_int,
    anon_float,
    anon_char,
    anon__,
    anon_Float,
    anon_String,
    any_type,
    anon_for,
    anon_while,
    anon_do,
    anon_break,
    anon_continue,
    anon_if,
    anon_else,
    anon_switch,
    anon_case,
    anon_COLON_,
    anon_default_,
    anon_return_,
    anon_delete_,
    anon__manual_semicolon_,
    anon_GT_GT_GT_EQ_,
    anon_PERCENT_EQ_,
    anon_DOT_,
    anon_QMARK_,
    anon_COLON_COLON_,
    anon_DASH_DASH_,
    anon_PLUS_PLUS_,
    anon_sizeof_,
    anon_view_as_,
    int_literal,
    float_literal,
    anon_SQUOTE_,
    character,
    anon_DQUOTE_,
    anon_string_literal_token1_,
    escape_sequence,
    bool_literal,
    null,
    this,
    system_lib_string,
    comment,
    anon__automatic_semicolon_,
    anon__ternary_colon_,
    preproc_arg,
    source_file,
    anon__preproc_expression_,
    preproc_parenthesized_expression,
    preproc_unary_expression,
    preproc_binary_expression,
    preproc_include,
    preproc_tryinclude,
    preproc_macro,
    preproc_define,
    preproc_undefine,
    preproc_if,
    preproc_elseif,
    preproc_assert,
    preproc_defined_condition,
    preproc_pragma,
    preproc_error,
    preproc_warning,
    hardcoded_symbol,
    assertion,
    function_definition,
    function_declaration,
    function_declaration_kind,
    parameter_declarations,
    parameter_declaration,
    rest_parameter,
    alias_declaration,
    alias_assignment,
    global_variable_declaration,
    variable_declaration_statement,
    variable_storage_class,
    visibility,
    variable_declaration,
    dynamic_array_declaration,
    dynamic_array,
    new_expression,
    old_global_variable_declaration,
    old_variable_declaration_statement,
    old_for_loop_variable_declaration_statement,
    old_variable_declaration,
    enum_,
    enum_entries,
    enum_entry,
    enum_struct,
    enum_struct_field,
    enum_struct_method,
    typedef,
    typeset,
    typedef_expression,
    funcenum,
    funcenum_member,
    functag,
    methodmap,
    methodmap_alias,
    methodmap_native,
    methodmap_native_constructor,
    methodmap_native_destructor,
    methodmap_method,
    methodmap_method_constructor,
    methodmap_method_destructor,
    methodmap_property,
    methodmap_property_alias,
    methodmap_property_native,
    methodmap_property_method,
    methodmap_property_getter,
    methodmap_property_setter,
    struct_,
    struct_field,
    struct_declaration,
    struct_constructor,
    struct_field_value,
    type_,
    array_type,
    old_type,
    dimension,
    fixed_dimension,
    builtin_type,
    old_builtin_type,
    block,
    for_statement,
    while_statement,
    do_while_statement,
    break_statement,
    continue_statement,
    condition_statement,
    switch_statement,
    switch_case,
    expression_statement,
    return_statement,
    delete_statement,
    anon__semicolon_,
    anon__expression_,
    anon__case_expression_,
    assignment_expression,
    call_expression,
    call_arguments,
    named_arg,
    ignore_argument,
    array_indexed_access,
    parenthesized_expression,
    comma_expression,
    ternary_expression,
    field_access,
    scope_access,
    unary_expression,
    case_unary_expression,
    binary_expression,
    case_binary_expression,
    update_expression,
    anon__sizeof_call_expression_,
    array_scope_access,
    sizeof_expression,
    view_as,
    old_type_cast,
    array_literal,
    anon__literal_,
    char_literal,
    string_literal,
    rest_operator,
    anon_source_file_repeat1_,
    anon_preproc_macro_repeat1_,
    anon_function_definition_repeat1_,
    anon_parameter_declarations_repeat1_,
    anon_parameter_declaration_repeat1_,
    anon_global_variable_declaration_repeat1_,
    anon_variable_declaration_statement_repeat1_,
    anon_dynamic_array_repeat1_,
    anon_old_global_variable_declaration_repeat1_,
    anon_enum_entries_repeat1_,
    anon_enum_struct_repeat1_,
    anon_typeset_repeat1_,
    anon_funcenum_repeat1_,
    anon_methodmap_repeat1_,
    anon_methodmap_property_repeat1_,
    anon_struct_repeat1_,
    anon_struct_constructor_repeat1_,
    anon_block_repeat1_,
    anon_for_statement_repeat1_,
    anon_switch_statement_repeat1_,
    anon_switch_case_repeat1_,
    anon_call_arguments_repeat1_,
    anon_array_literal_repeat1_,
    anon_string_literal_repeat1_,
}

impl TSKind {
    /// The grammar's number for this kind.
    pub open spec fn spec_id(self) -> u16 {
        match self {
            TSKind::anon_end => 0,
            TSKind::identifier => 1,
            TSKind::anon_LPAREN => 2,
            TSKind::anon_RPAREN => 3,
            TSKind::anon_BANG => 4,
            TSKind::anon_TILDE => 5,
            TSKind::anon_DASH => 6,
            TSKind::anon_PLUS => 7,
            TSKind::anon_AMP => 8,
            TSKind::anon_DOT_DOT_DOT => 9,
            TSKind::anon_STAR => 10,
            TSKind::anon_SLASH => 11,
            TSKind::anon_PERCENT => 12,
            TSKind::anon_PIPE_PIPE => 13,
            TSKind::anon_AMP_AMP => 14,
            TSKind::anon_PIPE => 15,
            TSKind::anon_CARET => 16,
            TSKind::anon_EQ_EQ => 17,
            TSKind::anon_BANG_EQ => 18,
            TSKind::anon_GT => 19,
            TSKind::anon_GT_EQ => 20,
            TSKind::anon_LT_EQ => 21,
            TSKind::anon_LT => 22,
            TSKind::anon_LT_LT => 23,
            TSKind::anon_GT_GT => 24,
            TSKind::anon_GT_GT_GT => 25,
            TSKind::anon_POUNDinclude => 26,
            TSKind::anon_POUNDtryinclude => 27,
            TSKind::anon_POUNDdefine => 28,
            TSKind::anon_COMMA => 29,
            TSKind::macro_param => 30,
            TSKind::anon_POUNDundef => 31,
            TSKind::anon_POUNDif => 32,
            TSKind::anon_POUNDelseif => 33,
            TSKind::anon_POUNDassert => 34,
            TSKind::anon_defined => 35,
            TSKind::preproc_else => 36,
            TSKind::preproc_endif => 37,
            TSKind::preproc_endinput => 38,
            TSKind::anon_POUNDpragma => 39,
            TSKind::anon_POUNDerror => 40,
            TSKind::anon_POUNDwarning => 41,
            TSKind::anon_using__intrinsics__DOTHandle => 42,
            TSKind::anon_assert => 43,
            TSKind::anon_static_assert => 44,
            TSKind::anon_EQ => 45,
            TSKind::anon_forward => 46,
            TSKind::anon_native => 47,
            TSKind::alias_operator => 48,
            TSKind::anon_operator => 49,
            TSKind::anon_COLON => 50,
            TSKind::anon_const => 51,
            TSKind::anon_public => 52,
            TSKind::anon_stock => 53,
            TSKind::anon_static => 54,
            TSKind::anon_new => 55,
            TSKind::anon_decl => 56,
            TSKind::anon_enum => 57,
            TSKind::anon_PLUS_EQ => 58,
            TSKind::anon_DASH_EQ => 59,
            TSKind::anon_STAR_EQ => 60,
            TSKind::anon_SLASH_EQ => 61,
            TSKind::anon_PIPE_EQ => 62,
            TSKind::anon_AMP_EQ => 63,
            TSKind::anon_CARET_EQ => 64,
            TSKind::anon_TILDE_EQ => 65,
            TSKind::anon_LT_LT_EQ => 66,
            TSKind::anon_GT_GT_EQ => 67,
            TSKind::anon_LBRACE => 68,
            TSKind::anon_RBRACE => 69,
            TSKind::anon_struct => 70,
            TSKind::anon_typedef => 71,
            TSKind::anon_typeset => 72,
            TSKind::anon_function => 73,
            TSKind::anon_funcenum => 74,
            TSKind::anon_functag => 75,
            TSKind::anon_methodmap => 76,
            TSKind::anon___nullable__ => 77,
            TSKind::anon_property => 78,
            TSKind::anon_get => 79,
            TSKind::anon_set => 80,
            TSKind::anon_LBRACK => 81,
            TSKind::anon_RBRACK => 82,
            TSKind::anon_void => 83,
            TSKind::anon_bool => 84,
            TSKind::anon_int => 85,
            TSKind::anon_float => 86,
            TSKind::anon_char => 87,
            TSKind::anon__ => 88,
            TSKind::anon_Float => 89,
            TSKind::anon_String => 90,
            TSKind::any_type => 91,
            TSKind::anon_for => 92,
            TSKind::anon_while => 93,
            TSKind::anon_do => 94,
            TSKind::anon_break => 95,
            TSKind::anon_continue => 96,
            TSKind::anon_if => 97,
            TSKind::anon_else => 98,
            TSKind::anon_switch => 99,
            TSKind::anon_case => 100,
            TSKind::anon_COLON_ => 101,
            TSKind::anon_default_ => 102,
            TSKind::anon_return_ => 103,
            TSKind::anon_delete_ => 104,
            TSKind::anon__manual_semicolon_ => 105,
            TSKind::anon_GT_GT_GT_EQ_ => 106,
            TSKind::anon_PERCENT_EQ_ => 107,
            TSKind::anon_DOT_ => 108,
            TSKind::anon_QMARK_ => 109,
            TSKind::anon_COLON_COLON_ => 110,
            TSKind::anon_DASH_DASH_ => 111,
            TSKind::anon_PLUS_PLUS_ => 112,
            TSKind::anon_sizeof_ => 113,
            TSKind::anon_view_as_ => 114,
            TSKind::int_literal => 115,
            TSKind::float_literal => 116,
            TSKind::anon_SQUOTE_ => 117,
            TSKind::character => 118,
            TSKind::anon_DQUOTE_ => 119,
            TSKind::anon_string_literal_token1_ => 120,
            TSKind::escape_sequence => 121,
            TSKind::bool_literal => 122,
            TSKind::null => 123,
            TSKind::this => 124,
            TSKind::system_lib_string => 125,
            TSKind::comment => 126,
            TSKind::anon__automatic_semicolon_ => 127,
            TSKind::anon__ternary_colon_ => 128,
            TSKind::preproc_arg => 129,
            TSKind::source_file => 130,
            TSKind::anon__preproc_expression_ => 131,
            TSKind::preproc_parenthesized_expression => 132,
            TSKind::preproc_unary_expression => 133,
            TSKind::preproc_binary_expression => 134,
            TSKind::preproc_include => 135,
            TSKind::preproc_tryinclude => 136,
            TSKind::preproc_macro => 137,
            TSKind::preproc_define => 138,
            TSKind::preproc_undefine => 139,
            TSKind::preproc_if => 140,
            TSKind::preproc_elseif => 141,
            TSKind::preproc_assert => 142,
            TSKind::preproc_defined_condition => 143,
            TSKind::preproc_pragma => 144,
            TSKind::preproc_error => 145,
            TSKind::preproc_warning => 146,
            TSKind::hardcoded_symbol => 147,
            TSKind::assertion => 148,
            TSKind::function_definition => 149,
            TSKind::function_declaration => 150,
            TSKind::function_declaration_kind => 151,
            TSKind::parameter_declarations => 152,
            TSKind::parameter_declaration => 153,
            TSKind::rest_parameter => 154,
            TSKind::alias_declaration => 155,
            TSKind::alias_assignment => 156,
            TSKind::global_variable_declaration => 157,
            TSKind::variable_declaration_statement => 158,
            TSKind::variable_storage_class => 159,
            TSKind::visibility => 160,
            TSKind::variable_declaration => 161,
            TSKind::dynamic_array_declaration => 162,
            TSKind::dynamic_array => 163,
            TSKind::new_expression => 164,
            TSKind::old_global_variable_declaration => 165,
            TSKind::old_variable_declaration_statement => 166,
            TSKind::old_for_loop_variable_declaration_statement => 167,
            TSKind::old_variable_declaration => 168,
            TSKind::enum_ => 169,
            TSKind::enum_entries => 170,
            TSKind::enum_entry => 171,
            TSKind::enum_struct => 172,
            TSKind::enum_struct_field => 173,
            TSKind::enum_struct_method => 174,
            TSKind::typedef => 175,
            TSKind::typeset => 176,
            TSKind::typedef_expression => 177,
            TSKind::funcenum => 178,
            TSKind::funcenum_member => 179,
            TSKind::functag => 180,
            TSKind::methodmap => 181,
            TSKind::methodmap_alias => 182,
            TSKind::methodmap_native => 183,
            TSKind::methodmap_native_constructor => 184,
            TSKind::methodmap_native_destructor => 185,
            TSKind::methodmap_method => 186,
            TSKind::methodmap_method_constructor => 187,
            TSKind::methodmap_method_destructor => 188,
            TSKind::methodmap_property => 189,
            TSKind::methodmap_property_alias => 190,
            TSKind::methodmap_property_native => 191,
            TSKind::methodmap_property_method => 192,
            TSKind::methodmap_property_getter => 193,
            TSKind::methodmap_property_setter => 194,
            TSKind::struct_ => 195,
            TSKind::struct_field => 196,
            TSKind::struct_declaration => 197,
            TSKind::struct_constructor => 198,
            TSKind::struct_field_value => 199,
            TSKind::type_ => 200,
            TSKind::array_type => 201,
            TSKind::old_type => 202,
            TSKind::dimension => 203,
            TSKind::fixed_dimension => 204,
            TSKind::builtin_type => 205,
            TSKind::old_builtin_type => 206,
            TSKind::block => 207,
            TSKind::for_statement => 208,
            TSKind::while_statement => 209,
            TSKind::do_while_statement => 210,
            TSKind::break_statement => 211,
            TSKind::continue_statement => 212,
            TSKind::condition_statement => 213,
            TSKind::switch_statement => 214,
            TSKind::switch_case => 215,
            TSKind::expression_statement => 216,
            TSKind::return_statement => 217,
            TSKind::delete_statement => 218,
            TSKind::anon__semicolon_ => 219,
            TSKind::anon__expression_ => 220,
            TSKind::anon__case_expression_ => 221,
            TSKind::assignment_expression => 222,
            TSKind::call_expression => 223,
            TSKind::call_arguments => 224,
            TSKind::named_arg => 225,
            TSKind::ignore_argument => 226,
            TSKind::array_indexed_access => 227,
            TSKind::parenthesized_expression => 228,
            TSKind::comma_expression => 229,
            TSKind::ternary_expression => 230,
            TSKind::field_access => 231,
            TSKind::scope_access => 232,
            TSKind::unary_expression => 233,
            TSKind::case_unary_expression => 234,
            TSKind::binary_expression => 235,
            TSKind::case_binary_expression => 236,
            TSKind::update_expression => 237,
            TSKind::anon__sizeof_call_expression_ => 238,
            TSKind::array_scope_access => 239,
            TSKind::sizeof_expression => 240,
            TSKind::view_as => 241,
            TSKind::old_type_cast => 242,
            TSKind::array_literal => 243,
            TSKind::anon__literal_ => 244,
            TSKind::char_literal => 245,
            TSKind::string_literal => 246,
            TSKind::rest_operator => 247,
            TSKind::anon_source_file_repeat1_ => 248,
            TSKind::anon_preproc_macro_repeat1_ => 249,
            TSKind::anon_function_definition_repeat1_ => 250,
            TSKind::anon_parameter_declarations_repeat1_ => 251,
            TSKind::anon_parameter_declaration_repeat1_ => 252,
            TSKind::anon_global_variable_declaration_repeat1_ => 253,
            TSKind::anon_variable_declaration_statement_repeat1_ => 254,
            TSKind::anon_dynamic_array_repeat1_ => 255,
            TSKind::anon_old_global_variable_declaration_repeat1_ => 256,
            TSKind::anon_enum_entries_repeat1_ => 257,
            TSKind::anon_enum_struct_repeat1_ => 258,
            TSKind::anon_typeset_repeat1_ => 259,
            TSKind::anon_funcenum_repeat1_ => 260,
            TSKind::anon_methodmap_repeat1_ => 261,
            TSKind::anon_methodmap_property_repeat1_ => 262,
            TSKind::anon_struct_repeat1_ => 263,
            TSKind::anon_struct_constructor_repeat1_ => 264,
            TSKind::anon_block_repeat1_ => 265,
            TSKind::anon_for_statement_repeat1_ => 266,
            TSKind::anon_switch_statement_repeat1_ => 267,
            TSKind::anon_switch_case_repeat1_ => 268,
            TSKind::anon_call_arguments_repeat1_ => 269,
            TSKind::anon_array_literal_repeat1_ => 270,
            TSKind::anon_string_literal_repeat1_ => 271,
        }
    }

    /// The kind that the grammar numbers `id`, if there is one.
    pub open spec fn spec_from_id(id: u16) -> Option<TSKind> {
        match id {
            0 => Some(TSKind::anon_end),
            1 => Some(TSKind::identifier),
            2 => Some(TSKind::anon_LPAREN),
            3 => Some(TSKind::anon_RPAREN),
            4 => Some(TSKind::anon_BANG),
            5 => Some(TSKind::anon_TILDE),
            6 => Some(TSKind::anon_DASH),
            7 => Some(TSKind::anon_PLUS),
            8 => Some(TSKind::anon_AMP),
            9 => Some(TSKind::anon_DOT_DOT_DOT),
            10 => Some(TSKind::anon_STAR),
            11 => Some(TSKind::anon_SLASH),
            12 => Some(TSKind::anon_PERCENT),
            13 => Some(TSKind::anon_PIPE_PIPE),
            14 => Some(TSKind::anon_AMP_AMP),
            15 => Some(TSKind::anon_PIPE),
            16 => Some(TSKind::anon_CARET),
            17 => Some(TSKind::anon_EQ_EQ),
            18 => Some(TSKind::anon_BANG_EQ),
            19 => Some(TSKind::anon_GT),
            20 => Some(TSKind::anon_GT_EQ),
            21 => Some(TSKind::anon_LT_EQ),
            22 => Some(TSKind::anon_LT),
            23 => Some(TSKind::anon_LT_LT),
            24 => Some(TSKind::anon_GT_GT),
            25 => Some(TSKind::anon_GT_GT_GT),
            26 => Some(TSKind::anon_POUNDinclude),
            27 => Some(TSKind::anon_POUNDtryinclude),
            28 => Some(TSKind::anon_POUNDdefine),
            29 => Some(TSKind::anon_COMMA),
            30 => Some(TSKind::macro_param),
            31 => Some(TSKind::anon_POUNDundef),
            32 => Some(TSKind::anon_POUNDif),
            33 => Some(TSKind::anon_POUNDelseif),
            34 => Some(TSKind::anon_POUNDassert),
            35 => Some(TSKind::anon_defined),
            36 => Some(TSKind::preproc_else),
            37 => Some(TSKind::preproc_endif),
            38 => Some(TSKind::preproc_endinput),
            39 => Some(TSKind::anon_POUNDpragma),
            40 => Some(TSKind::anon_POUNDerror),
            41 => Some(TSKind::anon_POUNDwarning),
            42 => Some(TSKind::anon_using__intrinsics__DOTHandle),
            43 => Some(TSKind::anon_assert),
            44 => Some(TSKind::anon_static_assert),
            45 => Some(TSKind::anon_EQ),
            46 => Some(TSKind::anon_forward),
            47 => Some(TSKind::anon_native),
            48 => Some(TSKind::alias_operator),
            49 => Some(TSKind::anon_operator),
            50 => Some(TSKind::anon_COLON),
            51 => Some(TSKind::anon_const),
            52 => Some(TSKind::anon_public),
            53 => Some(TSKind::anon_stock),
            54 => Some(TSKind::anon_static),
            55 => Some(TSKind::anon_new),
            56 => Some(TSKind::anon_decl),
            57 => Some(TSKind::anon_enum),
            58 => Some(TSKind::anon_PLUS_EQ),
            59 => Some(TSKind::anon_DASH_EQ),
            60 => Some(TSKind::anon_STAR_EQ),
            61 => Some(TSKind::anon_SLASH_EQ),
            62 => Some(TSKind::anon_PIPE_EQ),
            63 => Some(TSKind::anon_AMP_EQ),
            64 => Some(TSKind::anon_CARET_EQ),
            65 => Some(TSKind::anon_TILDE_EQ),
            66 => Some(TSKind::anon_LT_LT_EQ),
            67 => Some(TSKind::anon_GT_GT_EQ),
            68 => Some(TSKind::anon_LBRACE),
            69 => Some(TSKind::anon_RBRACE),
            70 => Some(TSKind::anon_struct),
            71 => Some(TSKind::anon_typedef),
            72 => Some(TSKind::anon_typeset),
            73 => Some(TSKind::anon_function),
            74 => Some(TSKind::anon_funcenum),
            75 => Some(TSKind::anon_functag),
            76 => Some(TSKind::anon_methodmap),
            77 => Some(TSKind::anon___nullable__),
            78 => Some(TSKind::anon_property),
            79 => Some(TSKind::anon_get),
            80 => Some(TSKind::anon_set),
            81 => Some(TSKind::anon_LBRACK),
            82 => Some(TSKind::anon_RBRACK),
            83 => Some(TSKind::anon_void),
            84 => Some(TSKind::anon_bool),
            85 => Some(TSKind::anon_int),
            86 => Some(TSKind::anon_float),
            87 => Some(TSKind::anon_char),
            88 => Some(TSKind::anon__),
            89 => Some(TSKind::anon_Float),
            90 => Some(TSKind::anon_String),
            91 => Some(TSKind::any_type),
            92 => Some(TSKind::anon_for),
            93 => Some(TSKind::anon_while),
            94 => Some(TSKind::anon_do),
            95 => Some(TSKind::anon_break),
            96 => Some(TSKind::anon_continue),
            97 => Some(TSKind::anon_if),
            98 => Some(TSKind::anon_else),
            99 => Some(TSKind::anon_switch),
            100 => Some(TSKind::anon_case),
            101 => Some(TSKind::anon_COLON_),
            102 => Some(TSKind::anon_default_),
            103 => Some(TSKind::anon_return_),
            104 => Some(TSKind::anon_delete_),
            105 => Some(TSKind::anon__manual_semicolon_),
            106 => Some(TSKind::anon_GT_GT_GT_EQ_),
            107 => Some(TSKind::anon_PERCENT_EQ_),
            108 => Some(TSKind::anon_DOT_),
            109 => Some(TSKind::anon_QMARK_),
            110 => Some(TSKind::anon_COLON_COLON_),
            111 => Some(TSKind::anon_DASH_DASH_),
            112 => Some(TSKind::anon_PLUS_PLUS_),
            113 => Some(TSKind::anon_sizeof_),
            114 => Some(TSKind::anon_view_as_),
            115 => Some(TSKind::int_literal),
            116 => Some(TSKind::float_literal),
            117 => Some(TSKind::anon_SQUOTE_),
            118 => Some(TSKind::character),
            119 => Some(TSKind::anon_DQUOTE_),
            120 => Some(TSKind::anon_string_literal_token1_),
            121 => Some(TSKind::escape_sequence),
            122 => Some(TSKind::bool_literal),
            123 => Some(TSKind::null),
            124 => Some(TSKind::this),
            125 => Some(TSKind::system_lib_string),
            126 => Some(TSKind::comment),
            127 => Some(TSKind::anon__automatic_semicolon_),
            128 => Some(TSKind::anon__ternary_colon_),
            129 => Some(TSKind::preproc_arg),
            130 => Some(TSKind::source_file),
            131 => Some(TSKind::anon__preproc_expression_),
            132 => Some(TSKind::preproc_parenthesized_expression),
            133 => Some(TSKind::preproc_unary_expression),
            134 => Some(TSKind::preproc_binary_expression),
            135 => Some(TSKind::preproc_include),
            136 => Some(TSKind::preproc_tryinclude),
            137 => Some(TSKind::preproc_macro),
            138 => Some(TSKind::preproc_define),
            139 => Some(TSKind::preproc_undefine),
            140 => Some(TSKind::preproc_if),
            141 => Some(TSKind::preproc_elseif),
            142 => Some(TSKind::preproc_assert),
            143 => Some(TSKind::preproc_defined_condition),
            144 => Some(TSKind::preproc_pragma),
            145 => Some(TSKind::preproc_error),
            146 => Some(TSKind::preproc_warning),
            147 => Some(TSKind::hardcoded_symbol),
            148 => Some(TSKind::assertion),
            149 => Some(TSKind::function_definition),
            150 => Some(TSKind::function_declaration),
            151 => Some(TSKind::function_declaration_kind),
            152 => Some(TSKind::parameter_declarations),
            153 => Some(TSKind::parameter_declaration),
            154 => Some(TSKind::rest_parameter),
            155 => Some(TSKind::alias_declaration),
            156 => Some(TSKind::alias_assignment),
            157 => Some(TSKind::global_variable_declaration),
            158 => Some(TSKind::variable_declaration_statement),
            159 => Some(TSKind::variable_storage_class),
            160 => Some(TSKind::visibility),
            161 => Some(TSKind::variable_declaration),
            162 => Some(TSKind::dynamic_array_declaration),
            163 => Some(TSKind::dynamic_array),
            164 => Some(TSKind::new_expression),
            165 => Some(TSKind::old_global_variable_declaration),
            166 => Some(TSKind::old_variable_declaration_statement),
            167 => Some(TSKind::old_for_loop_variable_declaration_statement),
            168 => Some(TSKind::old_variable_declaration),
            169 => Some(TSKind::enum_),
            170 => Some(TSKind::enum_entries),
            171 => Some(TSKind::enum_entry),
            172 => Some(TSKind::enum_struct),
            173 => Some(TSKind::enum_struct_field),
            174 => Some(TSKind::enum_struct_method),
            175 => Some(TSKind::typedef),
            176 => Some(TSKind::typeset),
            177 => Some(TSKind::typedef_expression),
            178 => Some(TSKind::funcenum),
            179 => Some(TSKind::funcenum_member),
            180 => Some(TSKind::functag),
            181 => Some(TSKind::methodmap),
            182 => Some(TSKind::methodmap_alias),
            183 => Some(TSKind::methodmap_native),
            184 => Some(TSKind::methodmap_native_constructor),
            185 => Some(TSKind::methodmap_native_destructor),
            186 => Some(TSKind::methodmap_method),
            187 => Some(TSKind::methodmap_method_constructor),
            188 => Some(TSKind::methodmap_method_destructor),
            189 => Some(TSKind::methodmap_property),
            190 => Some(TSKind::methodmap_property_alias),
            191 => Some(TSKind::methodmap_property_native),
            192 => Some(TSKind::methodmap_property_method),
            193 => Some(TSKind::methodmap_property_getter),
            194 => Some(TSKind::methodmap_property_setter),
            195 => Some(TSKind::struct_),
            196 => Some(TSKind::struct_field),
            197 => Some(TSKind::struct_declaration),
            198 => Some(TSKind::struct_constructor),
            199 => Some(TSKind::struct_field_value),
            200 => Some(TSKind::type_),
            201 => Some(TSKind::array_type),
            202 => Some(TSKind::old_type),
            203 => Some(TSKind::dimension),
            204 => Some(TSKind::fixed_dimension),
            205 => Some(TSKind::builtin_type),
            206 => Some(TSKind::old_builtin_type),
            207 => Some(TSKind::block),
            208 => Some(TSKind::for_statement),
            209 => Some(TSKind::while_statement),
            210 => Some(TSKind::do_while_statement),
            211 => Some(TSKind::break_statement),
            212 => Some(TSKind::continue_statement),
            213 => Some(TSKind::condition_statement),
            214 => Some(TSKind::switch_statement),
            215 => Some(TSKind::switch_case),
            216 => Some(TSKind::expression_statement),
            217 => Some(TSKind::return_statement),
            218 => Some(TSKind::delete_statement),
            219 => Some(TSKind::anon__semicolon_),
            220 => Some(TSKind::anon__expression_),
            221 => Some(TSKind::anon__case_expression_),
            222 => Some(TSKind::assignment_expression),
            223 => Some(TSKind::call_expression),
            224 => Some(TSKind::call_arguments),
            225 => Some(TSKind::named_arg),
            226 => Some(TSKind::ignore_argument),
            227 => Some(TSKind::array_indexed_access),
            228 => Some(TSKind::parenthesized_expression),
            229 => Some(TSKind::comma_expression),
            230 => Some(TSKind::ternary_expression),
            231 => Some(TSKind::field_access),
            232 => Some(TSKind::scope_access),
            233 => Some(TSKind::unary_expression),
            234 => Some(TSKind::case_unary_expression),
            235 => Some(TSKind::binary_expression),
            236 => Some(TSKind::case_binary_expression),
            237 => Some(TSKind::update_expression),
            238 => Some(TSKind::anon__sizeof_call_expression_),
            239 => Some(TSKind::array_scope_access),
            240 => Some(TSKind::sizeof_expression),
            241 => Some(TSKind::view_as),
            242 => Some(TSKind::old_type_cast),
            243 => Some(TSKind::array_literal),
            244 => Some(TSKind::anon__literal_),
            245 => Some(TSKind::char_literal),
            246 => Some(TSKind::string_literal),
            247 => Some(TSKind::rest_operator),
            248 => Some(TSKind::anon_source_file_repeat1_),
            249 => Some(TSKind::anon_preproc_macro_repeat1_),
            250 => Some(TSKind::anon_function_definition_repeat1_),
            251 => Some(TSKind::anon_parameter_declarations_repeat1_),
            252 => Some(TSKind::anon_parameter_declaration_repeat1_),
            253 => Some(TSKind::anon_global_variable_declaration_repeat1_),
            254 => Some(TSKind::anon_variable_declaration_statement_repeat1_),
            255 => Some(TSKind::anon_dynamic_array_repeat1_),
            256 => Some(TSKind::anon_old_global_variable_declaration_repeat1_),
            257 => Some(TSKind::anon_enum_entries_repeat1_),
            258 => Some(TSKind::anon_enum_struct_repeat1_),
            259 => Some(TSKind::anon_typeset_repeat1_),
            260 => Some(TSKind::anon_funcenum_repeat1_),
            261 => Some(TSKind::anon_methodmap_repeat1_),
            262 => Some(TSKind::anon_methodmap_property_repeat1_),
            263 => Some(TSKind::anon_struct_repeat1_),
            264 => Some(TSKind::anon_struct_constructor_repeat1_),
            265 => Some(TSKind::anon_block_repeat1_),
            266 => Some(TSKind::anon_for_statement_repeat1_),
            267 => Some(TSKind::anon_switch_statement_repeat1_),
            268 => Some(TSKind::anon_switch_case_repeat1_),
            269 => Some(TSKind::anon_call_arguments_repeat1_),
            270 => Some(TSKind::anon_array_literal_repeat1_),
            271 => Some(TSKind::anon_string_literal_repeat1_),
            _ => None,
        }
    }

    /// The grammar's number for this kind.
    pub fn id(self) -> (r: u16)
        ensures
            r == self.spec_id(),
    {
        match self {
            TSKind::anon_end => 0,
            TSKind::identifier => 1,
            TSKind::anon_LPAREN => 2,
            TSKind::anon_RPAREN => 3,
            TSKind::anon_BANG => 4,
            TSKind::anon_TILDE => 5,
            TSKind::anon_DASH => 6,
            TSKind::anon_PLUS => 7,
            TSKind::anon_AMP => 8,
            TSKind::anon_DOT_DOT_DOT => 9,
            TSKind::anon_STAR => 10,
            TSKind::anon_SLASH => 11,
            TSKind::anon_PERCENT => 12,
            TSKind::anon_PIPE_PIPE => 13,
            TSKind::anon_AMP_AMP => 14,
            TSKind::anon_PIPE => 15,
            TSKind::anon_CARET => 16,
            TSKind::anon_EQ_EQ => 17,
            TSKind::anon_BANG_EQ => 18,
            TSKind::anon_GT => 19,
            TSKind::anon_GT_EQ => 20,
            TSKind::anon_LT_EQ => 21,
            TSKind::anon_LT => 22,
            TSKind::anon_LT_LT => 23,
            TSKind::anon_GT_GT => 24,
            TSKind::anon_GT_GT_GT => 25,
            TSKind::anon_POUNDinclude => 26,
            TSKind::anon_POUNDtryinclude => 27,
            TSKind::anon_POUNDdefine => 28,
            TSKind::anon_COMMA => 29,
            TSKind::macro_param => 30,
            TSKind::anon_POUNDundef => 31,
            TSKind::anon_POUNDif => 32,
            TSKind::anon_POUNDelseif => 33,
            TSKind::anon_POUNDassert => 34,
            TSKind::anon_defined => 35,
            TSKind::preproc_else => 36,
            TSKind::preproc_endif => 37,
            TSKind::preproc_endinput => 38,
            TSKind::anon_POUNDpragma => 39,
            TSKind::anon_POUNDerror => 40,
            TSKind::anon_POUNDwarning => 41,
            TSKind::anon_using__intrinsics__DOTHandle => 42,
            TSKind::anon_assert => 43,
            TSKind::anon_static_assert => 44,
            TSKind::anon_EQ => 45,
            TSKind::anon_forward => 46,
            TSKind::anon_native => 47,
            TSKind::alias_operator => 48,
            TSKind::anon_operator => 49,
            TSKind::anon_COLON => 50,
            TSKind::anon_const => 51,
            TSKind::anon_public => 52,
            TSKind::anon_stock => 53,
            TSKind::anon_static => 54,
            TSKind::anon_new => 55,
            TSKind::anon_decl => 56,
            TSKind::anon_enum => 57,
            TSKind::anon_PLUS_EQ => 58,
            TSKind::anon_DASH_EQ => 59,
            TSKind::anon_STAR_EQ => 60,
            TSKind::anon_SLASH_EQ => 61,
            TSKind::anon_PIPE_EQ => 62,
            TSKind::anon_AMP_EQ => 63,
            TSKind::anon_CARET_EQ => 64,
            TSKind::anon_TILDE_EQ => 65,
            TSKind::anon_LT_LT_EQ => 66,
            TSKind::anon_GT_GT_EQ => 67,
            TSKind::anon_LBRACE => 68,
            TSKind::anon_RBRACE => 69,
            TSKind::anon_struct => 70,
            TSKind::anon_typedef => 71,
            TSKind::anon_typeset => 72,
            TSKind::anon_function => 73,
            TSKind::anon_funcenum => 74,
            TSKind::anon_functag => 75,
            TSKind::anon_methodmap => 76,
            TSKind::anon___nullable__ => 77,
            TSKind::anon_property => 78,
            TSKind::anon_get => 79,
            TSKind::anon_set => 80,
            TSKind::anon_LBRACK => 81,
            TSKind::anon_RBRACK => 82,
            TSKind::anon_void => 83,
            TSKind::anon_bool => 84,
            TSKind::anon_int => 85,
            TSKind::anon_float => 86,
            TSKind::anon_char => 87,
            TSKind::anon__ => 88,
            TSKind::anon_Float => 89,
            TSKind::anon_String => 90,
            TSKind::any_type => 91,
            TSKind::anon_for => 92,
            TSKind::anon_while => 93,
            TSKind::anon_do => 94,
            TSKind::anon_break => 95,
            TSKind::anon_continue => 96,
            TSKind::anon_if => 97,
            TSKind::anon_else => 98,
            TSKind::anon_switch => 99,
            TSKind::anon_case => 100,
            TSKind::anon_COLON_ => 101,
            TSKind::anon_default_ => 102,
            TSKind::anon_return_ => 103,
            TSKind::anon_delete_ => 104,
            TSKind::anon__manual_semicolon_ => 105,
            TSKind::anon_GT_GT_GT_EQ_ => 106,
            TSKind::anon_PERCENT_EQ_ => 107,
            TSKind::anon_DOT_ => 108,
            TSKind::anon_QMARK_ => 109,
            TSKind::anon_COLON_COLON_ => 110,
            TSKind::anon_DASH_DASH_ => 111,
            TSKind::anon_PLUS_PLUS_ => 112,
            TSKind::anon_sizeof_ => 113,
            TSKind::anon_view_as_ => 114,
            TSKind::int_literal => 115,
            TSKind::float_literal => 116,
            TSKind::anon_SQUOTE_ => 117,
            TSKind::character => 118,
            TSKind::anon_DQUOTE_ => 119,
            TSKind::anon_string_literal_token1_ => 120,
            TSKind::escape_sequence => 121,
            TSKind::bool_literal => 122,
            TSKind::null => 123,
            TSKind::this => 124,
            TSKind::system_lib_string => 125,
            TSKind::comment => 126,
            TSKind::anon__automatic_semicolon_ => 127,
            TSKind::anon__ternary_colon_ => 128,
            TSKind::preproc_arg => 129,
            TSKind::source_file => 130,
            TSKind::anon__preproc_expression_ => 131,
            TSKind::preproc_parenthesized_expression => 132,
            TSKind::preproc_unary_expression => 133,
            TSKind::preproc_binary_expression => 134,
            TSKind::preproc_include => 135,
            TSKind::preproc_tryinclude => 136,
            TSKind::preproc_macro => 137,
            TSKind::preproc_define => 138,
            TSKind::preproc_undefine => 139,
            TSKind::preproc_if => 140,
            TSKind::preproc_elseif => 141,
            TSKind::preproc_assert => 142,
            TSKind::preproc_defined_condition => 143,
            TSKind::preproc_pragma => 144,
            TSKind::preproc_error => 145,
            TSKind::preproc_warning => 146,
            TSKind::hardcoded_symbol => 147,
            TSKind::assertion => 148,
            TSKind::function_definition => 149,
            TSKind::function_declaration => 150,
            TSKind::function_declaration_kind => 151,
            TSKind::parameter_declarations => 152,
            TSKind::parameter_declaration => 153,
            TSKind::rest_parameter => 154,
            TSKind::alias_declaration => 155,
            TSKind::alias_assignment => 156,
            TSKind::global_variable_declaration => 157,
            TSKind::variable_declaration_statement => 158,
            TSKind::variable_storage_class => 159,
            TSKind::visibility => 160,
            TSKind::variable_declaration => 161,
            TSKind::dynamic_array_declaration => 162,
            TSKind::dynamic_array => 163,
            TSKind::new_expression => 164,
            TSKind::old_global_variable_declaration => 165,
            TSKind::old_variable_declaration_statement => 166,
            TSKind::old_for_loop_variable_declaration_statement => 167,
            TSKind::old_variable_declaration => 168,
            TSKind::enum_ => 169,
            TSKind::enum_entries => 170,
            TSKind::enum_entry => 171,
            TSKind::enum_struct => 172,
            TSKind::enum_struct_field => 173,
            TSKind::enum_struct_method => 174,
            TSKind::typedef => 175,
            TSKind::typeset => 176,
            TSKind::typedef_expression => 177,
            TSKind::funcenum => 178,
            TSKind::funcenum_member => 179,
            TSKind::functag => 180,
            TSKind::methodmap => 181,
            TSKind::methodmap_alias => 182,
            TSKind::methodmap_native => 183,
            TSKind::methodmap_native_constructor => 184,
            TSKind::methodmap_native_destructor => 185,
            TSKind::methodmap_method => 186,
            TSKind::methodmap_method_constructor => 187,
            TSKind::methodmap_method_destructor => 188,
            TSKind::methodmap_property => 189,
            TSKind::methodmap_property_alias => 190,
            TSKind::methodmap_property_native => 191,
            TSKind::methodmap_property_method => 192,
            TSKind::methodmap_property_getter => 193,
            TSKind::methodmap_property_setter => 194,
            TSKind::struct_ => 195,
            TSKind::struct_field => 196,
            TSKind::struct_declaration => 197,
            TSKind::struct_constructor => 198,
            TSKind::struct_field_value => 199,
            TSKind::type_ => 200,
            TSKind::array_type => 201,
            TSKind::old_type => 202,
            TSKind::dimension => 203,
            TSKind::fixed_dimension => 204,
            TSKind::builtin_type => 205,
            TSKind::old_builtin_type => 206,
            TSKind::block => 207,
            TSKind::for_statement => 208,
            TSKind::while_statement => 209,
            TSKind::do_while_statement => 210,
            TSKind::break_statement => 211,
            TSKind::continue_statement => 212,
            TSKind::condition_statement => 213,
            TSKind::switch_statement => 214,
            TSKind::switch_case => 215,
            TSKind::expression_statement => 216,
            TSKind::return_statement => 217,
            TSKind::delete_statement => 218,
            TSKind::anon__semicolon_ => 219,
            TSKind::anon__expression_ => 220,
            TSKind::anon__case_expression_ => 221,
            TSKind::assignment_expression => 222,
            TSKind::call_expression => 223,
            TSKind::call_arguments => 224,
            TSKind::named_arg => 225,
            TSKind::ignore_argument => 226,
            TSKind::array_indexed_access => 227,
            TSKind::parenthesized_expression => 228,
            TSKind::comma_expression => 229,
            TSKind::ternary_expression => 230,
            TSKind::field_access => 231,
            TSKind::scope_access => 232,
            TSKind::unary_expression => 233,
            TSKind::case_unary_expression => 234,
            TSKind::binary_expression => 235,
            TSKind::case_binary_expression => 236,
            TSKind::update_expression => 237,
            TSKind::anon__sizeof_call_expression_ => 238,
            TSKind::array_scope_access => 239,
            TSKind::sizeof_expression => 240,
            TSKind::view_as => 241,
            TSKind::old_type_cast => 242,
            TSKind::array_literal => 243,
            TSKind::anon__literal_ => 244,
            TSKind::char_literal => 245,
            TSKind::string_literal => 246,
            TSKind::rest_operator => 247,
            TSKind::anon_source_file_repeat1_ => 248,
            TSKind::anon_preproc_macro_repeat1_ => 249,
            TSKind::anon_function_definition_repeat1_ => 250,
            TSKind::anon_parameter_declarations_repeat1_ => 251,
            TSKind::anon_parameter_declaration_repeat1_ => 252,
            TSKind::anon_global_variable_declaration_repeat1_ => 253,
            TSKind::anon_variable_declaration_statement_repeat1_ => 254,
            TSKind::anon_dynamic_array_repeat1_ => 255,
            TSKind::anon_old_global_variable_declaration_repeat1_ => 256,
            TSKind::anon_enum_entries_repeat1_ => 257,
            TSKind::anon_enum_struct_repeat1_ => 258,
            TSKind::anon_typeset_repeat1_ => 259,
            TSKind::anon_funcenum_repeat1_ => 260,
            TSKind::anon_methodmap_repeat1_ => 261,
            TSKind::anon_methodmap_property_repeat1_ => 262,
            TSKind::anon_struct_repeat1_ => 263,
            TSKind::anon_struct_constructor_repeat1_ => 264,
            TSKind::anon_block_repeat1_ => 265,
            TSKind::anon_for_statement_repeat1_ => 266,
            TSKind::anon_switch_statement_repeat1_ => 267,
            TSKind::anon_switch_case_repeat1_ => 268,
            TSKind::anon_call_arguments_repeat1_ => 269,
            TSKind::anon_array_literal_repeat1_ => 270,
            TSKind::anon_string_literal_repeat1_ => 271,
        }
    }

    /// The kind that the grammar numbers `id`; `None` for a number that the
    /// grammar gives no kind of this list.
    pub fn from_kind_id(id: u16) -> (r: Option<TSKind>)
        ensures
            r == Self::spec_from_id(id),
    {
        match id {
            0 => Some(TSKind::anon_end),
            1 => Some(TSKind::identifier),
            2 => Some(TSKind::anon_LPAREN),
            3 => Some(TSKind::anon_RPAREN),
            4 => Some(TSKind::anon_BANG),
            5 => Some(TSKind::anon_TILDE),
            6 => Some(TSKind::anon_DASH),
            7 => Some(TSKind::anon_PLUS),
            8 => Some(TSKind::anon_AMP),
            9 => Some(TSKind::anon_DOT_DOT_DOT),
            10 => Some(TSKind::anon_STAR),
            11 => Some(TSKind::anon_SLASH),
            12 => Some(TSKind::anon_PERCENT),
            13 => Some(TSKind::anon_PIPE_PIPE),
            14 => Some(TSKind::anon_AMP_AMP),
            15 => Some(TSKind::anon_PIPE),
            16 => Some(TSKind::anon_CARET),
            17 => Some(TSKind::anon_EQ_EQ),
            18 => Some(TSKind::anon_BANG_EQ),
            19 => Some(TSKind::anon_GT),
            20 => Some(TSKind::anon_GT_EQ),
            21 => Some(TSKind::anon_LT_EQ),
            22 => Some(TSKind::anon_LT),
            23 => Some(TSKind::anon_LT_LT),
            24 => Some(TSKind::anon_GT_GT),
            25 => Some(TSKind::anon_GT_GT_GT),
            26 => Some(TSKind::anon_POUNDinclude),
            27 => Some(TSKind::anon_POUNDtryinclude),
            28 => Some(TSKind::anon_POUNDdefine),
            29 => Some(TSKind::anon_COMMA),
            30 => Some(TSKind::macro_param),
            31 => Some(TSKind::anon_POUNDundef),
            32 => Some(TSKind::anon_POUNDif),
            33 => Some(TSKind::anon_POUNDelseif),
            34 => Some(TSKind::anon_POUNDassert),
            35 => Some(TSKind::anon_defined),
            36 => Some(TSKind::preproc_else),
            37 => Some(TSKind::preproc_endif),
            38 => Some(TSKind::preproc_endinput),
            39 => Some(TSKind::anon_POUNDpragma),
            40 => Some(TSKind::anon_POUNDerror),
            41 => Some(TSKind::anon_POUNDwarning),
            42 => Some(TSKind::anon_using__intrinsics__DOTHandle),
            43 => Some(TSKind::anon_assert),
            44 => Some(TSKind::anon_static_assert),
            45 => Some(TSKind::anon_EQ),
            46 => Some(TSKind::anon_forward),
            47 => Some(TSKind::anon_native),
            48 => Some(TSKind::alias_operator),
            49 => Some(TSKind::anon_operator),
            50 => Some(TSKind::anon_COLON),
            51 => Some(TSKind::anon_const),
            52 => Some(TSKind::anon_public),
            53 => Some(TSKind::anon_stock),
            54 => Some(TSKind::anon_static),
            55 => Some(TSKind::anon_new),
            56 => Some(TSKind::anon_decl),
            57 => Some(TSKind::anon_enum),
            58 => Some(TSKind::anon_PLUS_EQ),
            59 => Some(TSKind::anon_DASH_EQ),
            60 => Some(TSKind::anon_STAR_EQ),
            61 => Some(TSKind::anon_SLASH_EQ),
            62 => Some(TSKind::anon_PIPE_EQ),
            63 => Some(TSKind::anon_AMP_EQ),
            64 => Some(TSKind::anon_CARET_EQ),
            65 => Some(TSKind::anon_TILDE_EQ),
            66 => Some(TSKind::anon_LT_LT_EQ),
            67 => Some(TSKind::anon_GT_GT_EQ),
            68 => Some(TSKind::anon_LBRACE),
            69 => Some(TSKind::anon_RBRACE),
            70 => Some(TSKind::anon_struct),
            71 => Some(TSKind::anon_typedef),
            72 => Some(TSKind::anon_typeset),
            73 => Some(TSKind::anon_function),
            74 => Some(TSKind::anon_funcenum),
            75 => Some(TSKind::anon_functag),
            76 => Some(TSKind::anon_methodmap),
            77 => Some(TSKind::anon___nullable__),
            78 => Some(TSKind::anon_property),
            79 => Some(TSKind::anon_get),
            80 => Some(TSKind::anon_set),
            81 => Some(TSKind::anon_LBRACK),
            82 => Some(TSKind::anon_RBRACK),
            83 => Some(TSKind::anon_void),
            84 => Some(TSKind::anon_bool),
            85 => Some(TSKind::anon_int),
            86 => Some(TSKind::anon_float),
            87 => Some(TSKind::anon_char),
            88 => Some(TSKind::anon__),
            89 => Some(TSKind::anon_Float),
            90 => Some(TSKind::anon_String),
            91 => Some(TSKind::any_type),
            92 => Some(TSKind::anon_for),
            93 => Some(TSKind::anon_while),
            94 => Some(TSKind::anon_do),
            95 => Some(TSKind::anon_break),
            96 => Some(TSKind::anon_continue),
            97 => Some(TSKind::anon_if),
            98 => Some(TSKind::anon_else),
            99 => Some(TSKind::anon_switch),
            100 => Some(TSKind::anon_case),
            101 => Some(TSKind::anon_COLON_),
            102 => Some(TSKind::anon_default_),
            103 => Some(TSKind::anon_return_),
            104 => Some(TSKind::anon_delete_),
            105 => Some(TSKind::anon__manual_semicolon_),
            106 => Some(TSKind::anon_GT_GT_GT_EQ_),
            107 => Some(TSKind::anon_PERCENT_EQ_),
            108 => Some(TSKind::anon_DOT_),
            109 => Some(TSKind::anon_QMARK_),
            110 => Some(TSKind::anon_COLON_COLON_),
            111 => Some(TSKind::anon_DASH_DASH_),
            112 => Some(TSKind::anon_PLUS_PLUS_),
            113 => Some(TSKind::anon_sizeof_),
            114 => Some(TSKind::anon_view_as_),
            115 => Some(TSKind::int_literal),
            116 => Some(TSKind::float_literal),
            117 => Some(TSKind::anon_SQUOTE_),
            118 => Some(TSKind::character),
            119 => Some(TSKind::anon_DQUOTE_),
            120 => Some(TSKind::anon_string_literal_token1_),
            121 => Some(TSKind::escape_sequence),
            122 => Some(TSKind::bool_literal),
            123 => Some(TSKind::null),
            124 => Some(TSKind::this),
            125 => Some(TSKind::system_lib_string),
            126 => Some(TSKind::comment),
            127 => Some(TSKind::anon__automatic_semicolon_),
            128 => Some(TSKind::anon__ternary_colon_),
            129 => Some(TSKind::preproc_arg),
            130 => Some(TSKind::source_file),
            131 => Some(TSKind::anon__preproc_expression_),
            132 => Some(TSKind::preproc_parenthesized_expression),
            133 => Some(TSKind::preproc_unary_expression),
            134 => Some(TSKind::preproc_binary_expression),
            135 => Some(TSKind::preproc_include),
            136 => Some(TSKind::preproc_tryinclude),
            137 => Some(TSKind::preproc_macro),
            138 => Some(TSKind::preproc_define),
            139 => Some(TSKind::preproc_undefine),
            140 => Some(TSKind::preproc_if),
            141 => Some(TSKind::preproc_elseif),
            142 => Some(TSKind::preproc_assert),
            143 => Some(TSKind::preproc_defined_condition),
            144 => Some(TSKind::preproc_pragma),
            145 => Some(TSKind::preproc_error),
            146 => Some(TSKind::preproc_warning),
            147 => Some(TSKind::hardcoded_symbol),
            148 => Some(TSKind::assertion),
            149 => Some(TSKind::function_definition),
            150 => Some(TSKind::function_declaration),
            151 => Some(TSKind::function_declaration_kind),
            152 => Some(TSKind::parameter_declarations),
            153 => Some(TSKind::parameter_declaration),
            154 => Some(TSKind::rest_parameter),
            155 => Some(TSKind::alias_declaration),
            156 => Some(TSKind::alias_assignment),
            157 => Some(TSKind::global_variable_declaration),
            158 => Some(TSKind::variable_declaration_statement),
            159 => Some(TSKind::variable_storage_class),
            160 => Some(TSKind::visibility),
            161 => Some(TSKind::variable_declaration),
            162 => Some(TSKind::dynamic_array_declaration),
            163 => Some(TSKind::dynamic_array),
            164 => Some(TSKind::new_expression),
            165 => Some(TSKind::old_global_variable_declaration),
            166 => Some(TSKind::old_variable_declaration_statement),
            167 => Some(TSKind::old_for_loop_variable_declaration_statement),
            168 => Some(TSKind::old_variable_declaration),
            169 => Some(TSKind::enum_),
            170 => Some(TSKind::enum_entries),
            171 => Some(TSKind::enum_entry),
            172 => Some(TSKind::enum_struct),
            173 => Some(TSKind::enum_struct_field),
            174 => Some(TSKind::enum_struct_method),
            175 => Some(TSKind::typedef),
            176 => Some(TSKind::typeset),
            177 => Some(TSKind::typedef_expression),
            178 => Some(TSKind::funcenum),
            179 => Some(TSKind::funcenum_member),
            180 => Some(TSKind::functag),
            181 => Some(TSKind::methodmap),
            182 => Some(TSKind::methodmap_alias),
            183 => Some(TSKind::methodmap_native),
            184 => Some(TSKind::methodmap_native_constructor),
            185 => Some(TSKind::methodmap_native_destructor),
            186 => Some(TSKind::methodmap_method),
            187 => Some(TSKind::methodmap_method_constructor),
            188 => Some(TSKind::methodmap_method_destructor),
            189 => Some(TSKind::methodmap_property),
            190 => Some(TSKind::methodmap_property_alias),
            191 => Some(TSKind::methodmap_property_native),
            192 => Some(TSKind::methodmap_property_method),
            193 => Some(TSKind::methodmap_property_getter),
            194 => Some(TSKind::methodmap_property_setter),
            195 => Some(TSKind::struct_),
            196 => Some(TSKind::struct_field),
            197 => Some(TSKind::struct_declaration),
            198 => Some(TSKind::struct_constructor),
            199 => Some(TSKind::struct_field_value),
            200 => Some(TSKind::type_),
            201 => Some(TSKind::array_type),
            202 => Some(TSKind::old_type),
            203 => Some(TSKind::dimension),
            204 => Some(TSKind::fixed_dimension),
            205 => Some(TSKind::builtin_type),
            206 => Some(TSKind::old_builtin_type),
            207 => Some(TSKind::block),
            208 => Some(TSKind::for_statement),
            209 => Some(TSKind::while_statement),
            210 => Some(TSKind::do_while_statement),
            211 => Some(TSKind::break_statement),
            212 => Some(TSKind::continue_statement),
            213 => Some(TSKind::condition_statement),
            214 => Some(TSKind::switch_statement),
            215 => Some(TSKind::switch_case),
            216 => Some(TSKind::expression_statement),
            217 => Some(TSKind::return_statement),
            218 => Some(TSKind::delete_statement),
            219 => Some(TSKind::anon__semicolon_),
            220 => Some(TSKind::anon__expression_),
            221 => Some(TSKind::anon__case_expression_),
            222 => Some(TSKind::assignment_expression),
            223 => Some(TSKind::call_expression),
            224 => Some(TSKind::call_arguments),
            225 => Some(TSKind::named_arg),
            226 => Some(TSKind::ignore_argument),
            227 => Some(TSKind::array_indexed_access),
            228 => Some(TSKind::parenthesized_expression),
            229 => Some(TSKind::comma_expression),
            230 => Some(TSKind::ternary_expression),
            231 => Some(TSKind::field_access),
            232 => Some(TSKind::scope_access),
            233 => Some(TSKind::unary_expression),
            234 => Some(TSKind::case_unary_expression),
            235 => Some(TSKind::binary_expression),
            236 => Some(TSKind::case_binary_expression),
            237 => Some(TSKind::update_expression),
            238 => Some(TSKind::anon__sizeof_call_expression_),
            239 => Some(TSKind::array_scope_access),
            240 => Some(TSKind::sizeof_expression),
            241 => Some(TSKind::view_as),
            242 => Some(TSKind::old_type_cast),
            243 => Some(TSKind::array_literal),
            244 => Some(TSKind::anon__literal_),
            245 => Some(TSKind::char_literal),
            246 => Some(TSKind::string_literal),
            247 => Some(TSKind::rest_operator),
            248 => Some(TSKind::anon_source_file_repeat1_),
            249 => Some(TSKind::anon_preproc_macro_repeat1_),
            250 => Some(TSKind::anon_function_definition_repeat1_),
            251 => Some(TSKind::anon_parameter_declarations_repeat1_),
            252 => Some(TSKind::anon_parameter_declaration_repeat1_),
            253 => Some(TSKind::anon_global_variable_declaration_repeat1_),
            254 => Some(TSKind::anon_variable_declaration_statement_repeat1_),
            255 => Some(TSKind::anon_dynamic_array_repeat1_),
            256 => Some(TSKind::anon_old_global_variable_declaration_repeat1_),
            257 => Some(TSKind::anon_enum_entries_repeat1_),
            258 => Some(TSKind::anon_enum_struct_repeat1_),
            259 => Some(TSKind::anon_typeset_repeat1_),
            260 => Some(TSKind::anon_funcenum_repeat1_),
            261 => Some(TSKind::anon_methodmap_repeat1_),
            262 => Some(TSKind::anon_methodmap_property_repeat1_),
            263 => Some(TSKind::anon_struct_repeat1_),
            264 => Some(TSKind::anon_struct_constructor_repeat1_),
            265 => Some(TSKind::anon_block_repeat1_),
            266 => Some(TSKind::anon_for_statement_repeat1_),
            267 => Some(TSKind::anon_switch_statement_repeat1_),
            268 => Some(TSKind::anon_switch_case_repeat1_),
            269 => Some(TSKind::anon_call_arguments_repeat1_),
            270 => Some(TSKind::anon_array_literal_repeat1_),
            271 => Some(TSKind::anon_string_literal_repeat1_),
            _ => None,
        }
    }
}

/// Every kind has a number below [`TS_KIND_COUNT`], and reading that number
/// back gives the kind again.
pub proof fn lemma_kind_id_roundtrip(k: TSKind)
    ensures
        k.spec_id() < TS_KIND_COUNT,
        TSKind::spec_from_id(k.spec_id()) == Some(k),
{
}

/// A number names a kind exactly when it is below [`TS_KIND_COUNT`], and the
/// kind that it names has that number.
pub proof fn lemma_kind_from_id(id: u16)
    ensures
        TSKind::spec_from_id(id) is Some <==> id < TS_KIND_COUNT,
        TSKind::spec_from_id(id) matches Some(k) ==> k.spec_id() == id,
{
}

} // verus!
