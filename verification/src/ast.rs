//! The syntax tree that the parser builds for one PrSM source file.
use vstd::prelude::*;
use crate::token::Span;

verus! {

/// One parsed `.prsm` file: its `using` lines and its single top-level declaration.
#[derive(Debug)]
pub struct File {
    pub usings: Vec<UsingDecl>,
    pub decl: Decl,
    pub span: Span,
}

/// `using A.B.C`
#[derive(Debug)]
pub struct UsingDecl {
    pub path: String,
    pub span: Span,
}

#[derive(Debug, Clone, Copy, PartialEq, Eq, Structural)]
pub enum Visibility {
    Public,
    Private,
    Protected,
}

#[derive(Debug, Clone, Copy, PartialEq, Eq, Structural)]
pub enum Mutability {
    Val,
    Var,
    Const,
    Fixed,
}

#[derive(Debug, Clone, Copy, PartialEq, Eq, Structural)]
pub enum LifecycleKind {
    Awake,
    Start,
    Update,
    FixedUpdate,
    LateUpdate,
    OnEnable,
    OnDisable,
    OnDestroy,
    OnTriggerEnter,
    OnTriggerExit,
    OnTriggerStay,
    OnCollisionEnter,
    OnCollisionExit,
    OnCollisionStay,
}

#[derive(Debug, Clone, Copy, PartialEq, Eq, Structural)]
pub enum AttrTargetKind {
    Field,
    Property,
    Param,
    Return,
    Type,
}

#[derive(Debug, Clone, Copy, PartialEq, Eq, Structural)]
pub enum ListenLifetime {
    Register,
    UntilDisable,
    UntilDestroy,
    Manual,
}

#[derive(Debug, Clone, Copy, PartialEq, Eq, Structural)]
pub enum BinOp {
    Add,
    Sub,
    Mul,
    Div,
    Mod,
    Eq,
    NotEq,
    Lt,
    Gt,
    LtEq,
    GtEq,
    And,
    Or,
    In,
}

#[derive(Debug, Clone, Copy, PartialEq, Eq, Structural)]
pub enum UnaryOp {
    Not,
    Negate,
}

#[derive(Debug, Clone, Copy, PartialEq, Eq, Structural)]
pub enum AssignOp {
    Assign,
    PlusAssign,
    MinusAssign,
    StarAssign,
    SlashAssign,
    ModAssign,
    NullCoalesceAssign,
}

#[derive(Debug, Clone, Copy, PartialEq, Eq, Structural)]
pub enum RelationalOp {
    Lt,
    Le,
    Gt,
    Ge,
    Eq,
    Ne,
}

#[derive(Debug, Clone, PartialEq)]
pub enum ArgMod {
    Plain,
    Ref,
    Out,
    OutDiscard,
    OutDecl(String),
}

#[derive(Debug, Clone, Copy, PartialEq, Eq, Structural)]
pub enum ParamMod {
    Plain,
    Ref,
    Out,
}

/// `@name(args)`
#[derive(Debug)]
pub struct Annotation {
    pub name: String,
    pub args: Vec<Expr>,
    pub arg_names: Vec<Option<String>>,
    pub span: Span,
}

/// `@field(Attr, ...)`, `@property(...)`, `@param(...)`, `@return(...)`, `@type(...)`
#[derive(Debug)]
pub struct TargetAnnotation {
    pub target: AttrTargetKind,
    pub attr_name: String,
    pub args: Vec<Expr>,
    pub span: Span,
}

/// `where T : A, B`
#[derive(Debug)]
pub struct WhereClause {
    pub type_param: String,
    pub constraints: Vec<String>,
}

#[derive(Debug)]
pub struct Param {
    pub name: String,
    pub name_span: Span,
    pub ty: TypeRef,
    pub default: Option<Expr>,
    pub modifier: ParamMod,
    pub is_vararg: bool,
    pub span: Span,
}

#[derive(Debug)]
pub struct EnumParam {
    pub name: String,
    pub ty: TypeRef,
}

#[derive(Debug)]
pub struct EnumPayloadField {
    pub name: String,
    pub ty: TypeRef,
    pub span: Span,
}

#[derive(Debug)]
pub struct EnumEntry {
    pub name: String,
    pub name_span: Span,
    pub args: Vec<Expr>,
    pub payload: Vec<EnumPayloadField>,
    pub span: Span,
}

#[derive(Debug)]
#[allow(inconsistent_fields)]
pub enum InterfaceMember {
    Func {
        name: String,
        name_span: Span,
        params: Vec<Param>,
        return_ty: Option<TypeRef>,
        default_body: Option<Block>,
        span: Span,
    },
    Property {
        name: String,
        name_span: Span,
        ty: TypeRef,
        mutable: bool,
        span: Span,
    },
}

#[derive(Debug)]
#[allow(inconsistent_fields)]
pub enum Decl {
    Component {
        is_singleton: bool,
        is_partial: bool,
        name: String,
        name_span: Span,
        base_class: String,
        base_class_span: Span,
        interfaces: Vec<String>,
        interface_spans: Vec<Span>,
        members: Vec<Member>,
        span: Span,
    },
    Asset {
        name: String,
        name_span: Span,
        base_class: String,
        base_class_span: Span,
        members: Vec<Member>,
        span: Span,
    },
    Class {
        name: String,
        name_span: Span,
        is_abstract: bool,
        is_sealed: bool,
        is_partial: bool,
        type_params: Vec<String>,
        where_clauses: Vec<WhereClause>,
        super_class: Option<String>,
        super_class_span: Option<Span>,
        interfaces: Vec<String>,
        interface_spans: Vec<Span>,
        members: Vec<Member>,
        primary_ctor_params: Vec<Param>,
        span: Span,
    },
    DataClass {
        name: String,
        name_span: Span,
        fields: Vec<Param>,
        members: Vec<Member>,
        span: Span,
    },
    Enum {
        name: String,
        name_span: Span,
        params: Vec<EnumParam>,
        entries: Vec<EnumEntry>,
        span: Span,
    },
    Attribute {
        name: String,
        name_span: Span,
        fields: Vec<Param>,
        targets: Vec<String>,
        span: Span,
    },
    Interface {
        name: String,
        name_span: Span,
        extends: Vec<String>,
        extends_spans: Vec<Span>,
        members: Vec<InterfaceMember>,
        span: Span,
    },
    TypeAlias {
        name: String,
        name_span: Span,
        target: TypeRef,
        span: Span,
    },
    Struct {
        name: String,
        name_span: Span,
        is_ref: bool,
        fields: Vec<Param>,
        members: Vec<Member>,
        span: Span,
    },
    Extension {
        target_type: TypeRef,
        members: Vec<Member>,
        span: Span,
    },
}

#[derive(Debug)]
pub struct PropertySetter {
    pub param_name: String,
    pub body: Block,
}

#[derive(Debug)]
pub struct StateTransition {
    pub event: String,
    pub event_span: Span,
    pub target: String,
    pub target_span: Span,
    pub span: Span,
}

#[derive(Debug)]
pub struct StateDecl {
    pub name: String,
    pub name_span: Span,
    pub enter: Option<Block>,
    pub exit: Option<Block>,
    pub transitions: Vec<StateTransition>,
    pub span: Span,
}

#[derive(Debug)]
#[allow(inconsistent_fields)]
pub enum Member {
    SerializeField {
        annotations: Vec<Annotation>,
        visibility: Option<Visibility>,
        mutability: Mutability,
        name: String,
        name_span: Span,
        ty: TypeRef,
        init: Option<Expr>,
        span: Span,
    },
    Require { name: String, name_span: Span, ty: TypeRef, span: Span },
    Optional { name: String, name_span: Span, ty: TypeRef, span: Span },
    Child { name: String, name_span: Span, ty: TypeRef, span: Span },
    Parent { name: String, name_span: Span, ty: TypeRef, span: Span },
    Pool {
        name: String,
        name_span: Span,
        item_type: TypeRef,
        capacity: u32,
        max_size: u32,
        span: Span,
    },
    Event { visibility: Visibility, name: String, name_span: Span, ty: TypeRef, span: Span },
    StateMachine { name: String, name_span: Span, states: Vec<StateDecl>, span: Span },
    Command {
        name: String,
        name_span: Span,
        params: Vec<Param>,
        execute: Block,
        undo: Option<Block>,
        can_execute: Option<Expr>,
        span: Span,
    },
    BindProperty { name: String, name_span: Span, ty: TypeRef, init: Option<Expr>, span: Span },
    Func {
        visibility: Visibility,
        is_static: bool,
        is_override: bool,
        is_abstract: bool,
        is_open: bool,
        is_operator: bool,
        is_async: bool,
        annotations: Vec<Annotation>,
        name: String,
        name_span: Span,
        type_params: Vec<String>,
        where_clauses: Vec<WhereClause>,
        params: Vec<Param>,
        return_ty: Option<TypeRef>,
        body: FuncBody,
        span: Span,
    },
    Coroutine {
        name: String,
        name_span: Span,
        params: Vec<Param>,
        return_ty: Option<TypeRef>,
        body: Block,
        span: Span,
    },
    Lifecycle { kind: LifecycleKind, params: Vec<Param>, body: Block, span: Span },
    IntrinsicFunc {
        visibility: Visibility,
        name: String,
        name_span: Span,
        params: Vec<Param>,
        return_ty: Option<TypeRef>,
        code: String,
        span: Span,
    },
    IntrinsicCoroutine { name: String, name_span: Span, params: Vec<Param>, code: String, span: Span },
    Field {
        visibility: Visibility,
        is_static: bool,
        mutability: Mutability,
        name: String,
        name_span: Span,
        ty: Option<TypeRef>,
        init: Option<Expr>,
        span: Span,
    },
    Property {
        mutability: Mutability,
        name: String,
        name_span: Span,
        ty: TypeRef,
        getter: Option<FuncBody>,
        setter: Option<PropertySetter>,
        is_serialize: bool,
        target_annotations: Vec<TargetAnnotation>,
        span: Span,
    },
    ListenDecl { event: Expr, params: Vec<String>, lifetime: ListenLifetime, body: Block, span: Span },
    NestedDecl { decl: Box<Decl>, span: Span },
}

#[derive(Debug)]
#[allow(inconsistent_fields)]
pub enum FuncBody {
    Block(Block),
    ExprBody(Expr),
}

#[derive(Debug)]
pub struct Block {
    pub stmts: Vec<Stmt>,
    pub span: Span,
}

#[derive(Debug)]
pub struct DestructurePattern {
    pub type_path: String,
    pub bindings: Vec<String>,
    pub span: Span,
}

#[derive(Debug)]
pub struct CatchClause {
    pub name: String,
    pub ty: TypeRef,
    pub body: Block,
    pub span: Span,
}

#[derive(Debug)]
#[allow(inconsistent_fields)]
pub enum PreprocessorCond {
    Symbol { name: String, span: Span },
    Not { inner: Box<PreprocessorCond>, span: Span },
    And { left: Box<PreprocessorCond>, right: Box<PreprocessorCond>, span: Span },
    Or { left: Box<PreprocessorCond>, right: Box<PreprocessorCond>, span: Span },
}

#[derive(Debug)]
pub struct PreprocessorArm {
    pub cond: PreprocessorCond,
    pub body: Vec<Stmt>,
    pub span: Span,
}

#[derive(Debug)]
#[allow(inconsistent_fields)]
pub enum ElseBranch {
    ElseIf(Box<Stmt>),
    ElseBlock(Block),
}

#[derive(Debug)]
#[allow(inconsistent_fields)]
pub enum WaitForm {
    NextFrame,
    FixedFrame,
    Until(Expr),
    While(Expr),
    Duration(Expr),
}

#[derive(Debug)]
#[allow(inconsistent_fields)]
pub enum Stmt {
    ValDecl { name: String, name_span: Span, ty: Option<TypeRef>, init: Expr, is_ref: bool, span: Span },
    VarDecl { name: String, name_span: Span, ty: Option<TypeRef>, init: Option<Expr>, is_ref: bool, span: Span },
    DestructureVal { pattern: DestructurePattern, init: Expr, span: Span },
    Assignment { target: Expr, op: AssignOp, value: Expr, span: Span },
    Expr { expr: Expr, span: Span },
    If { cond: Expr, then_block: Block, else_branch: Option<ElseBranch>, span: Span },
    When { subject: Option<Expr>, branches: Vec<WhenBranch>, span: Span },
    For {
        var_name: String,
        name_span: Span,
        for_pattern: Option<DestructurePattern>,
        iterable: Expr,
        body: Block,
        span: Span,
    },
    While { cond: Expr, body: Block, span: Span },
    Return { value: Option<Expr>, is_ref: bool, span: Span },
    Wait { form: WaitForm, span: Span },
    Start { call: Expr, span: Span },
    Stop { target: Expr, span: Span },
    StopAll { span: Span },
    Listen {
        event: Expr,
        params: Vec<String>,
        lifetime: ListenLifetime,
        bound_name: Option<String>,
        body: Block,
        span: Span,
    },
    Unlisten { token: String, span: Span },
    IntrinsicBlock { code: String, span: Span },
    Break { span: Span },
    Continue { span: Span },
    Try { try_block: Block, catches: Vec<CatchClause>, finally_block: Option<Block>, span: Span },
    Throw { expr: Expr, span: Span },
    Use { name: String, name_span: Span, ty: Option<TypeRef>, init: Expr, body: Option<Block>, span: Span },
    BindTo { source: String, source_span: Span, target: Expr, span: Span },
    Yield { value: Expr, span: Span },
    YieldBreak { span: Span },
    Preprocessor { arms: Vec<PreprocessorArm>, else_arm: Option<Vec<Stmt>>, span: Span },
}

#[derive(Debug)]
pub struct WhenBranch {
    pub pattern: WhenPattern,
    pub guard: Option<Expr>,
    pub body: WhenBody,
    pub span: Span,
}

#[derive(Debug)]
#[allow(inconsistent_fields)]
pub enum WhenBody {
    Block(Block),
    Expr(Expr),
}

#[derive(Debug)]
#[allow(inconsistent_fields)]
pub enum WhenPattern {
    Else,
    Is(TypeRef),
    Range { start: Expr, end: Expr, span: Span },
    Not { inner: Box<WhenPattern>, span: Span },
    Relational { op: RelationalOp, value: Expr, span: Span },
    Binding { path: Vec<String>, bindings: Vec<String>, span: Span },
    Positional { path: Vec<String>, entries: Vec<WhenPattern>, span: Span },
    Property { type_path: Vec<String>, fields: Vec<(String, WhenPattern)>, span: Span },
    Expression(Expr),
    And { left: Box<WhenPattern>, right: Box<WhenPattern>, span: Span },
    Or { patterns: Vec<WhenPattern>, span: Span },
}

#[derive(Debug)]
#[allow(inconsistent_fields)]
pub enum TypeRef {
    Simple { name: String, nullable: bool, span: Span },
    Generic { name: String, type_args: Vec<TypeRef>, nullable: bool, span: Span },
    Qualified { qualifier: String, name: String, nullable: bool, span: Span },
    Tuple { types: Vec<TypeRef>, names: Vec<Option<String>>, nullable: bool, span: Span },
    Function { param_types: Vec<TypeRef>, return_type: Box<TypeRef>, nullable: bool, span: Span },
}

#[derive(Debug)]
pub struct Arg {
    pub name: Option<String>,
    pub call_modifier: ArgMod,
    pub value: Expr,
}

#[derive(Debug)]
pub struct LambdaParam {
    pub name: String,
    pub ty: Option<TypeRef>,
}

#[derive(Debug)]
#[allow(inconsistent_fields)]
pub enum LambdaBody {
    Expr(Box<Expr>),
    Block(Block),
}

#[derive(Debug)]
#[allow(inconsistent_fields)]
pub enum StringPart {
    Literal(String),
    Expr(Expr),
}

#[derive(Debug)]
#[allow(inconsistent_fields)]
pub enum Expr {
    IntLit(i64, Span),
    FloatLit(String, Span),
    DurationLit(String, Span),
    StringLit(String, Span),
    BoolLit(bool, Span),
    Null(Span),
    Ident(String, Span),
    This(Span),
    StringInterp { parts: Vec<StringPart>, span: Span },
    Binary { left: Box<Expr>, op: BinOp, right: Box<Expr>, span: Span },
    Unary { op: UnaryOp, operand: Box<Expr>, span: Span },
    MemberAccess { receiver: Box<Expr>, name: String, name_span: Span, span: Span },
    SafeCall { receiver: Box<Expr>, name: String, name_span: Span, span: Span },
    SafeMethodCall {
        receiver: Box<Expr>,
        name: String,
        name_span: Span,
        type_args: Vec<TypeRef>,
        args: Vec<Arg>,
        span: Span,
    },
    NonNullAssert { expr: Box<Expr>, span: Span },
    Elvis { left: Box<Expr>, right: Box<Expr>, span: Span },
    Call {
        receiver: Option<Box<Expr>>,
        name: String,
        name_span: Span,
        type_args: Vec<TypeRef>,
        args: Vec<Arg>,
        span: Span,
    },
    IndexAccess { receiver: Box<Expr>, index: Box<Expr>, span: Span },
    IfExpr { cond: Box<Expr>, then_block: Block, else_block: Block, span: Span },
    WhenExpr { subject: Option<Box<Expr>>, branches: Vec<WhenBranch>, span: Span },
    Range {
        start: Option<Box<Expr>>,
        end: Option<Box<Expr>>,
        inclusive: bool,
        descending: bool,
        step: Option<Box<Expr>>,
        span: Span,
    },
    Is { expr: Box<Expr>, ty: TypeRef, span: Span },
    Lambda { params: Vec<LambdaParam>, body: LambdaBody, span: Span },
    IntrinsicExpr { code: String, span: Span },
    SafeCastExpr { expr: Box<Expr>, target_type: TypeRef, span: Span },
    ForceCastExpr { expr: Box<Expr>, target_type: TypeRef, span: Span },
    Tuple { elements: Vec<Expr>, names: Vec<Option<String>>, span: Span },
    ListLit { elements: Vec<Expr>, span: Span },
    MapLit { entries: Vec<(Expr, Expr)>, span: Span },
    Await { expr: Box<Expr>, span: Span },
    NameOf { path: Vec<String>, span: Span },
    RefOf { inner: Box<Expr>, span: Span },
    SafeIndexAccess { receiver: Box<Expr>, index: Box<Expr>, span: Span },
    ThrowExpr { exception: Box<Expr>, span: Span },
    With { receiver: Box<Expr>, updates: Vec<(String, Expr)>, span: Span },
    StackAlloc { element_ty: TypeRef, size: Box<Expr>, span: Span },
    TryExpr { try_block: Block, catches: Vec<CatchClause>, span: Span },
}

/// The source span an expression covers.
pub open spec fn spec_expr_span(e: Expr) -> Span {
    match e {
        Expr::IntLit(_, s) => s,
        Expr::FloatLit(_, s) => s,
        Expr::DurationLit(_, s) => s,
        Expr::StringLit(_, s) => s,
        Expr::BoolLit(_, s) => s,
        Expr::Null(s) => s,
        Expr::Ident(_, s) => s,
        Expr::This(s) => s,
        Expr::StringInterp { span, .. } => span,
        Expr::Binary { span, .. } => span,
        Expr::Unary { span, .. } => span,
        Expr::MemberAccess { span, .. } => span,
        Expr::SafeCall { span, .. } => span,
        Expr::SafeMethodCall { span, .. } => span,
        Expr::NonNullAssert { span, .. } => span,
        Expr::Elvis { span, .. } => span,
        Expr::Call { span, .. } => span,
        Expr::IndexAccess { span, .. } => span,
        Expr::IfExpr { span, .. } => span,
        Expr::WhenExpr { span, .. } => span,
        Expr::Range { span, .. } => span,
        Expr::Is { span, .. } => span,
        Expr::Lambda { span, .. } => span,
        Expr::IntrinsicExpr { span, .. } => span,
        Expr::SafeCastExpr { span, .. } => span,
        Expr::ForceCastExpr { span, .. } => span,
        Expr::Tuple { span, .. } => span,
        Expr::ListLit { span, .. } => span,
        Expr::MapLit { span, .. } => span,
        Expr::Await { span, .. } => span,
        Expr::NameOf { span, .. } => span,
        Expr::RefOf { span, .. } => span,
        Expr::SafeIndexAccess { span, .. } => span,
        Expr::ThrowExpr { span, .. } => span,
        Expr::With { span, .. } => span,
        Expr::StackAlloc { span, .. } => span,
        Expr::TryExpr { span, .. } => span,
    }
}

impl Expr {
    /// The source span this expression covers.
    pub fn span(&self) -> (r: Span)
        ensures
            r == spec_expr_span(*self),
    {
        match self {
            Expr::IntLit(_, s) => *s,
            Expr::FloatLit(_, s) => *s,
            Expr::DurationLit(_, s) => *s,
            Expr::StringLit(_, s) => *s,
            Expr::BoolLit(_, s) => *s,
            Expr::Null(s) => *s,
            Expr::Ident(_, s) => *s,
            Expr::This(s) => *s,
            Expr::StringInterp { span, .. } => *span,
            Expr::Binary { span, .. } => *span,
            Expr::Unary { span, .. } => *span,
            Expr::MemberAccess { span, .. } => *span,
            Expr::SafeCall { span, .. } => *span,
            Expr::SafeMethodCall { span, .. } => *span,
            Expr::NonNullAssert { span, .. } => *span,
            Expr::Elvis { span, .. } => *span,
            Expr::Call { span, .. } => *span,
            Expr::IndexAccess { span, .. } => *span,
            Expr::IfExpr { span, .. } => *span,
            Expr::WhenExpr { span, .. } => *span,
            Expr::Range { span, .. } => *span,
            Expr::Is { span, .. } => *span,
            Expr::Lambda { span, .. } => *span,
            Expr::IntrinsicExpr { span, .. } => *span,
            Expr::SafeCastExpr { span, .. } => *span,
            Expr::ForceCastExpr { span, .. } => *span,
            Expr::Tuple { span, .. } => *span,
            Expr::ListLit { span, .. } => *span,
            Expr::MapLit { span, .. } => *span,
            Expr::Await { span, .. } => *span,
            Expr::NameOf { span, .. } => *span,
            Expr::RefOf { span, .. } => *span,
            Expr::SafeIndexAccess { span, .. } => *span,
            Expr::ThrowExpr { span, .. } => *span,
            Expr::With { span, .. } => *span,
            Expr::StackAlloc { span, .. } => *span,
            Expr::TryExpr { span, .. } => *span,
        }
    }
}

} // verus!
