//! The producer type-state validator: which members of a producer struct need a step before
//! the producer may be offered, and the order of the state parameters that track them.
//!
//! Every `FieldPublisher<T>` member needs an initial `update`; those listed in
//! `#[field_setter_list(..)]` / `#[field_getter_list(..)]` also need a set / get handler; every
//! `MethodHandler<Args, Return>` member needs a handler. The validator carries one state
//! parameter per step, ordered `[S0..Sn, H0..Hm, G0..Gk, M0..Mp]`, and `offer` is available
//! only once every parameter is in its done state.
use vstd::prelude::*;
use vstd::string::StringExecFns;

verus! {

/// A generic argument of a member's type.
pub enum GenericArg {
    /// A type argument, as written.
    Type(String),
    /// A lifetime, const or other argument.
    Other,
}

/// A member's declared type.
pub enum MemberType {
    /// A path type: its last segment's name, whether that segment has angle-bracketed
    /// arguments, and those arguments.
    Path { last_segment: String, angle_bracketed: bool, args: Vec<GenericArg> },
    /// Any other kind of type.
    Other,
}

/// One member of the producer struct.
pub struct MemberDecl {
    /// `None` for an unnamed member.
    pub ident: Option<String>,
    pub ty: MemberType,
}

/// What kind of item the derive was applied to.
pub enum DeclShape {
    NamedStruct(Vec<MemberDecl>),
    /// A tuple or unit struct.
    OtherStruct,
    /// An enum or union.
    NotStruct,
}

/// A struct-level `#[name(a, b, ..)]` attribute: its path, and the identifiers it lists, or
/// `None` when its arguments are not such a list.
pub struct NameListAttr {
    pub path: String,
    pub names: Option<Vec<String>>,
}

/// The producer struct the validator is derived for.
pub struct ProducerDecl {
    pub name: String,
    /// The struct's first generic parameter when it is a type parameter: its name.
    pub runtime_param: Option<String>,
    pub attrs: Vec<NameListAttr>,
    pub shape: DeclShape,
}

/// A `FieldPublisher<T>` member.
pub struct FieldMember {
    pub ident: String,
    pub inner_ty: String,
    pub has_setter: bool,
    pub has_getter: bool,
}

/// A `MethodHandler<Args, Return>` member.
pub struct MethodMember {
    pub ident: String,
    pub args_ty: String,
    pub return_ty: String,
}

/// Why no validator can be derived.
#[derive(Debug, Clone, Copy, PartialEq, Eq)]
pub enum PlanError {
    OnlyNamedFields,
    OnlyStructs,
    NoMembers,
}

/// The validator to generate.
pub struct ValidatorPlan {
    pub validator_name: String,
    /// Name of the runtime parameter; `None` means the default `R: Runtime + ?Sized`.
    pub runtime_param: Option<String>,
    pub fields: Vec<FieldMember>,
    /// Indices into `fields` of the members with a setter, in order.
    pub setter_fields: Vec<usize>,
    /// Indices into `fields` of the members with a getter, in order.
    pub getter_fields: Vec<usize>,
    pub methods: Vec<MethodMember>,
}

/// `name` is listed by some `#[attr_name(..)]` attribute.
pub open spec fn is_listed(attrs: Seq<NameListAttr>, attr_name: Seq<char>, name: Seq<char>) -> bool {
    exists|i: int, j: int|
        0 <= i < attrs.len() && attrs[i].path@ == attr_name && attrs[i].names is Some && 0 <= j
            < attrs[i].names->0@.len() && (#[trigger] attrs[i].names->0@[j])@ == name
}

/// How a member is classified.
pub enum MemberClass {
    Field { ident: Seq<char>, inner_ty: Seq<char> },
    Method { ident: Seq<char>, args_ty: Seq<char>, return_ty: Seq<char> },
    Ignored,
}

/// A member is a field member when its type's last segment is `FieldPublisher` with a type as
/// its first argument, and a method member when it is `MethodHandler` with types as its first
/// two arguments; unnamed members and `instance_info` are ignored.
pub open spec fn classify(m: MemberDecl) -> MemberClass {
    match m.ident {
        None => MemberClass::Ignored,
        Some(ident) => if ident@ == "instance_info"@ {
            MemberClass::Ignored
        } else {
            match m.ty {
                MemberType::Path { last_segment, angle_bracketed, args } => if last_segment@ == "FieldPublisher"@ {
                    if angle_bracketed && args@.len() >= 1 && args@[0] is Type {
                        MemberClass::Field { ident: ident@, inner_ty: args@[0]->Type_0@ }
                    } else {
                        MemberClass::Ignored
                    }
                } else if last_segment@ == "MethodHandler"@ {
                    if angle_bracketed && args@.len() >= 2 && args@[0] is Type && args@[1] is Type {
                        MemberClass::Method {
                            ident: ident@,
                            args_ty: args@[0]->Type_0@,
                            return_ty: args@[1]->Type_0@,
                        }
                    } else {
                        MemberClass::Ignored
                    }
                } else {
                    MemberClass::Ignored
                },
                MemberType::Other => MemberClass::Ignored,
            }
        },
    }
}

/// The field members among `members`, in order, as `(ident, inner type)`.
pub open spec fn field_members(members: Seq<MemberDecl>) -> Seq<(Seq<char>, Seq<char>)>
    decreases members.len(),
{
    if members.len() == 0 {
        seq![]
    } else {
        field_members(members.drop_last()) + match classify(members.last()) {
            MemberClass::Field { ident, inner_ty } => seq![(ident, inner_ty)],
            _ => seq![],
        }
    }
}

/// The method members among `members`, in order, as `(ident, args type, return type)`.
pub open spec fn method_members(members: Seq<MemberDecl>) -> Seq<(Seq<char>, Seq<char>, Seq<char>)>
    decreases members.len(),
{
    if members.len() == 0 {
        seq![]
    } else {
        method_members(members.drop_last()) + match classify(members.last()) {
            MemberClass::Method { ident, args_ty, return_ty } => seq![(ident, args_ty, return_ty)],
            _ => seq![],
        }
    }
}

/// The members a plan tracks match the declaration exactly.
pub open spec fn plan_matches(plan: ValidatorPlan, decl: ProducerDecl, members: Seq<MemberDecl>) -> bool {
    let fm = field_members(members);
    let mm = method_members(members);
    &&& plan.validator_name@ == decl.name@ + "Validator"@
    &&& plan.runtime_param == decl.runtime_param
    &&& plan.fields@.len() == fm.len()
    &&& forall|i: int|
        0 <= i < fm.len() ==> {
            &&& (#[trigger] plan.fields@[i]).ident@ == fm[i].0
            &&& plan.fields@[i].inner_ty@ == fm[i].1
            &&& plan.fields@[i].has_setter == is_listed(decl.attrs@, "field_setter_list"@, fm[i].0)
            &&& plan.fields@[i].has_getter == is_listed(decl.attrs@, "field_getter_list"@, fm[i].0)
        }
    &&& plan.methods@.len() == mm.len()
    &&& forall|p: int|
        0 <= p < mm.len() ==> {
            &&& (#[trigger] plan.methods@[p]).ident@ == mm[p].0
            &&& plan.methods@[p].args_ty@ == mm[p].1
            &&& plan.methods@[p].return_ty@ == mm[p].2
        }
    &&& indices_of(plan.fields@, true) == plan.setter_fields@
    &&& indices_of(plan.fields@, false) == plan.getter_fields@
}

/// Indices, in order, of the fields with a setter (`setter`) or with a getter (`!setter`).
pub open spec fn indices_of(fields: Seq<FieldMember>, setter: bool) -> Seq<usize>
    decreases fields.len(),
{
    if fields.len() == 0 {
        seq![]
    } else {
        let last = fields.last();
        let keep = if setter {
            last.has_setter
        } else {
            last.has_getter
        };
        indices_of(fields.drop_last(), setter) + if keep {
            seq![(fields.len() - 1) as usize]
        } else {
            seq![]
        }
    }
}

/// `idx` lists, in increasing order, exactly the positions of `fields` whose set handler
/// (`setter`) or get handler (`!setter`) flag is on.
pub open spec fn lists_flagged(fields: Seq<FieldMember>, setter: bool, idx: Seq<usize>) -> bool {
    &&& forall|a: int, b: int| 0 <= a < b < idx.len() ==> idx[a] < idx[b]
    &&& forall|k: int| 0 <= k < idx.len() ==> (#[trigger] idx[k]) < fields.len()
    &&& forall|i: int|
        0 <= i < fields.len() ==> ((if setter { fields[i].has_setter } else { fields[i].has_getter }) <==> idx.contains(
            i as usize,
        ))
}

/// The setter and getter index lists of a plan each pick out, in order, exactly the fields
/// with that handler: a field's get step depends on its getter flag alone, whatever its
/// setter flag is, and the same for the set step.
pub proof fn lemma_indices_of_exact(fields: Seq<FieldMember>, setter: bool)
    requires
        fields.len() <= usize::MAX,
    ensures
        lists_flagged(fields, setter, indices_of(fields, setter)),
    decreases fields.len(),
{
    if fields.len() > 0 {
        let d = fields.drop_last();
        lemma_indices_of_exact(d, setter);
        let prev = indices_of(d, setter);
        let idx = indices_of(fields, setter);
        let n = (fields.len() - 1) as usize;
        assert forall|i: int|
            0 <= i < fields.len() implies ((if setter { fields[i].has_setter } else { fields[i].has_getter })
            <==> idx.contains(i as usize)) by {
            if i < fields.len() - 1 {
                assert(d[i] == fields[i]);
                if idx.contains(i as usize) {
                    let k = choose|k: int| 0 <= k < idx.len() && idx[k] == i as usize;
                    if k >= prev.len() {
                        assert(idx[k] == n);
                    } else {
                        assert(prev[k] == idx[k]);
                    }
                }
                if prev.contains(i as usize) {
                    let k = choose|k: int| 0 <= k < prev.len() && prev[k] == i as usize;
                    assert(idx[k] == prev[k]);
                }
            } else {
                if (if setter { fields[i].has_setter } else { fields[i].has_getter }) {
                    assert(idx[prev.len() as int] == n);
                } else {
                    assert(idx =~= prev);
                    if idx.contains(i as usize) {
                        let k = choose|k: int| 0 <= k < idx.len() && idx[k] == i as usize;
                        assert(prev[k] < d.len());
                    }
                }
            }
        }
    }
}

/// The message a rejected declaration is reported with.
pub fn plan_error_message(e: PlanError) -> (m: &'static str)
    ensures
        m@ == match e {
            PlanError::OnlyNamedFields => "TypeStateValidator only supports structs with named fields"@,
            PlanError::OnlyStructs => "TypeStateValidator only supports structs"@,
            PlanError::NoMembers => "TypeStateValidator: no FieldPublisher or MethodHandler fields found (excluding instance_info)"@,
        },
{
    match e {
        PlanError::OnlyNamedFields => "TypeStateValidator only supports structs with named fields",
        PlanError::OnlyStructs => "TypeStateValidator only supports structs",
        PlanError::NoMembers => "TypeStateValidator: no FieldPublisher or MethodHandler fields found (excluding instance_info)",
    }
}

fn str_eq(a: &String, b: &str) -> (r: bool)
    ensures
        r == (a@ == b@),
{
    let b_owned = String::from_str(b);
    *a == b_owned
}

fn clone_string(s: &String) -> (r: String)
    ensures
        r@ == s@,
{
    s.clone()
}

/// `s` is the contents of one of `names`.
pub open spec fn in_names(names: Seq<String>, s: Seq<char>) -> bool {
    exists|j: int| 0 <= j < names.len() && (#[trigger] names[j])@ == s
}

/// `name` is listed by some `#[attr_name(..)]` attribute among the first `n` of `attrs`.
pub open spec fn listed_before(attrs: Seq<NameListAttr>, n: int, attr_name: Seq<char>, name: Seq<char>) -> bool {
    exists|i: int, j: int|
        0 <= i < n && attrs[i].path@ == attr_name && attrs[i].names is Some && 0 <= j < attrs[i].names->0@.len()
            && (#[trigger] attrs[i].names->0@[j])@ == name
}

/// Whether `name` is among `names`.
fn contains_name(names: &Vec<String>, name: &String) -> (r: bool)
    ensures
        r == in_names(names@, name@),
{
    let mut j: usize = 0;
    while j < names.len()
        invariant
            j <= names@.len(),
            forall|k: int| 0 <= k < j ==> (#[trigger] names@[k])@ != name@,
        decreases names@.len() - j,
    {
        if names[j] == *name {
            return true;
        }
        j = j + 1;
    }
    false
}

/// The identifiers listed by every `#[attr_name(..)]` attribute among `attrs`, each once.
pub fn parse_name_list_attr(attrs: &Vec<NameListAttr>, attr_name: &str) -> (names: Vec<String>)
    ensures
        forall|s: Seq<char>| #[trigger] is_listed(attrs@, attr_name@, s) <==> in_names(names@, s),
        forall|a: int, b: int| 0 <= a < b < names@.len() ==> (#[trigger] names@[a])@ != (#[trigger] names@[b])@,
{
    let mut names: Vec<String> = Vec::new();
    let mut i: usize = 0;
    while i < attrs.len()
        invariant
            i <= attrs@.len(),
            forall|s: Seq<char>|
                #![trigger in_names(names@, s)]
                #![trigger listed_before(attrs@, i as int, attr_name@, s)]
                in_names(names@, s) <==> listed_before(attrs@, i as int, attr_name@, s),
            forall|a: int, b: int| 0 <= a < b < names@.len() ==> (#[trigger] names@[a])@ != (#[trigger] names@[b])@,
        decreases attrs@.len() - i,
    {
        let attr = &attrs[i];
        let ghost old_names = names@;
        if str_eq(&attr.path, attr_name) {
            match &attr.names {
                Some(list) => {
                    let mut k: usize = 0;
                    while k < list.len()
                        invariant
                            k <= list@.len(),
                            forall|s: Seq<char>|
                                #![trigger in_names(names@, s)]
                                in_names(names@, s) <==> (in_names(old_names, s) || in_names(list@.take(k as int), s)),
                            forall|a: int, b: int| 0 <= a < b < names@.len() ==> (#[trigger] names@[a])@ != (#[trigger] names@[b])@,
                        decreases list@.len() - k,
                    {
                        let n = &list[k];
                        let ghost before = names@;
                        if !contains_name(&names, n) {
                            names.push(clone_string(n));
                        }
                        proof {
                            assert forall|s: Seq<char>| #[trigger] in_names(names@, s) <==> (in_names(old_names, s)
                                || in_names(list@.take(k + 1), s)) by {
                                if in_names(list@.take(k + 1), s) {
                                    let j = choose|j: int| 0 <= j < k + 1 && (#[trigger] list@.take(k + 1)[j])@ == s;
                                    if j < k {
                                        assert(list@.take(k as int)[j] == list@.take(k + 1)[j]);
                                    } else {
                                        assert(in_names(before, n@) || names@[names@.len() - 1]@ == n@);
                                    }
                                }
                                if in_names(list@.take(k as int), s) {
                                    let j = choose|j: int| 0 <= j < k && (#[trigger] list@.take(k as int)[j])@ == s;
                                    assert(list@.take(k + 1)[j] == list@.take(k as int)[j]);
                                }
                                if in_names(names@, s) && !in_names(before, s) {
                                    assert(names@[names@.len() - 1]@ == s);
                                    assert(list@.take(k + 1)[k as int]@ == s);
                                }
                                if in_names(before, s) {
                                    let j = choose|j: int| 0 <= j < before.len() && (#[trigger] before[j])@ == s;
                                    assert(names@[j] == before[j]);
                                }
                            }
                        }
                        k = k + 1;
                    }
                    proof {
                        assert(list@.take(list@.len() as int) =~= list@);
                        assert forall|s: Seq<char>| #[trigger] in_names(names@, s) <==> listed_before(attrs@, i + 1, attr_name@, s) by {
                            if listed_before(attrs@, i + 1, attr_name@, s) {
                                let (a, b) = choose|a: int, b: int|
                                    0 <= a < i + 1 && attrs@[a].path@ == attr_name@ && attrs@[a].names is Some && 0 <= b
                                        < attrs@[a].names->0@.len() && (#[trigger] attrs@[a].names->0@[b])@ == s;
                                if a == i {
                                    assert(in_names(list@, s));
                                } else {
                                    assert(listed_before(attrs@, i as int, attr_name@, s));
                                }
                            }
                            if in_names(list@, s) {
                                let b = choose|b: int| 0 <= b < list@.len() && (#[trigger] list@[b])@ == s;
                                assert(attrs@[i as int].names->0@[b] == list@[b]);
                            }
                            if listed_before(attrs@, i as int, attr_name@, s) {
                                let (a, b) = choose|a: int, b: int|
                                    0 <= a < i && attrs@[a].path@ == attr_name@ && attrs@[a].names is Some && 0 <= b
                                        < attrs@[a].names->0@.len() && (#[trigger] attrs@[a].names->0@[b])@ == s;
                                assert(listed_before(attrs@, i + 1, attr_name@, s));
                            }
                        }
                    }
                },
                None => {
                    proof {
                        assert forall|s: Seq<char>| #[trigger] in_names(names@, s) <==> listed_before(attrs@, i + 1, attr_name@, s) by {
                            if listed_before(attrs@, i + 1, attr_name@, s) {
                                let (a, b) = choose|a: int, b: int|
                                    0 <= a < i + 1 && attrs@[a].path@ == attr_name@ && attrs@[a].names is Some && 0 <= b
                                        < attrs@[a].names->0@.len() && (#[trigger] attrs@[a].names->0@[b])@ == s;
                                assert(listed_before(attrs@, i as int, attr_name@, s));
                            }
                            if listed_before(attrs@, i as int, attr_name@, s) {
                                let (a, b) = choose|a: int, b: int|
                                    0 <= a < i && attrs@[a].path@ == attr_name@ && attrs@[a].names is Some && 0 <= b
                                        < attrs@[a].names->0@.len() && (#[trigger] attrs@[a].names->0@[b])@ == s;
                                assert(listed_before(attrs@, i + 1, attr_name@, s));
                            }
                        }
                    }
                },
            }
        } else {
            proof {
                assert forall|s: Seq<char>| #[trigger] in_names(names@, s) <==> listed_before(attrs@, i + 1, attr_name@, s) by {
                    if listed_before(attrs@, i + 1, attr_name@, s) {
                        let (a, b) = choose|a: int, b: int|
                            0 <= a < i + 1 && attrs@[a].path@ == attr_name@ && attrs@[a].names is Some && 0 <= b
                                < attrs@[a].names->0@.len() && (#[trigger] attrs@[a].names->0@[b])@ == s;
                        assert(listed_before(attrs@, i as int, attr_name@, s));
                    }
                    if listed_before(attrs@, i as int, attr_name@, s) {
                        let (a, b) = choose|a: int, b: int|
                            0 <= a < i && attrs@[a].path@ == attr_name@ && attrs@[a].names is Some && 0 <= b
                                < attrs@[a].names->0@.len() && (#[trigger] attrs@[a].names->0@[b])@ == s;
                        assert(listed_before(attrs@, i + 1, attr_name@, s));
                    }
                }
            }
        }
        i = i + 1;
    }
    proof {
        assert forall|s: Seq<char>| #[trigger] is_listed(attrs@, attr_name@, s) <==> in_names(names@, s) by {
            assert(is_listed(attrs@, attr_name@, s) == listed_before(attrs@, attrs@.len() as int, attr_name@, s));
        }
    }
    names
}

/// The classification of one member, computed.
fn classify_member(m: &MemberDecl) -> (r: MemberClassExec)
    ensures
        match classify(*m) {
            MemberClass::Field { ident, inner_ty } => r matches MemberClassExec::Field(i, t) && i@ == ident && t@ == inner_ty,
            MemberClass::Method { ident, args_ty, return_ty } => r matches MemberClassExec::Method(i, a, t) && i@ == ident
                && a@ == args_ty && t@ == return_ty,
            MemberClass::Ignored => r is Ignored,
        },
{
    let ident = match &m.ident {
        None => return MemberClassExec::Ignored,
        Some(ident) => ident,
    };
    if str_eq(ident, "instance_info") {
        return MemberClassExec::Ignored;
    }
    match &m.ty {
        MemberType::Path { last_segment, angle_bracketed, args } => {
            if str_eq(last_segment, "FieldPublisher") {
                if *angle_bracketed && args.len() >= 1 {
                    match &args[0] {
                        GenericArg::Type(inner) => MemberClassExec::Field(clone_string(ident), clone_string(inner)),
                        GenericArg::Other => MemberClassExec::Ignored,
                    }
                } else {
                    MemberClassExec::Ignored
                }
            } else if str_eq(last_segment, "MethodHandler") {
                if *angle_bracketed && args.len() >= 2 {
                    match (&args[0], &args[1]) {
                        (GenericArg::Type(a), GenericArg::Type(r)) => MemberClassExec::Method(
                            clone_string(ident),
                            clone_string(a),
                            clone_string(r),
                        ),
                        _ => MemberClassExec::Ignored,
                    }
                } else {
                    MemberClassExec::Ignored
                }
            } else {
                MemberClassExec::Ignored
            }
        },
        MemberType::Other => MemberClassExec::Ignored,
    }
}

/// A member's classification, with owned names.
pub enum MemberClassExec {
    Field(String, String),
    Method(String, String, String),
    Ignored,
}

/// Plans the validator for a producer declaration: classifies its members, and fails for
/// anything but a struct with named members, or when no member needs a step.
pub fn plan_validator(decl: &ProducerDecl) -> (r: Result<ValidatorPlan, PlanError>)
    ensures
        match decl.shape {
            DeclShape::NamedStruct(members) => if field_members(members@).len() == 0 && method_members(members@).len() == 0 {
                r == Err::<ValidatorPlan, PlanError>(PlanError::NoMembers)
            } else {
                r matches Ok(plan) && plan_matches(plan, *decl, members@)
                    && lists_flagged(plan.fields@, true, plan.setter_fields@)
                    && lists_flagged(plan.fields@, false, plan.getter_fields@)
            },
            DeclShape::OtherStruct => r == Err::<ValidatorPlan, PlanError>(PlanError::OnlyNamedFields),
            DeclShape::NotStruct => r == Err::<ValidatorPlan, PlanError>(PlanError::OnlyStructs),
        },
{
    let setter_names = parse_name_list_attr(&decl.attrs, "field_setter_list");
    let getter_names = parse_name_list_attr(&decl.attrs, "field_getter_list");
    let members = match &decl.shape {
        DeclShape::NamedStruct(members) => members,
        DeclShape::OtherStruct => return Err(PlanError::OnlyNamedFields),
        DeclShape::NotStruct => return Err(PlanError::OnlyStructs),
    };
    let mut fields: Vec<FieldMember> = Vec::new();
    let mut methods: Vec<MethodMember> = Vec::new();
    let mut setter_fields: Vec<usize> = Vec::new();
    let mut getter_fields: Vec<usize> = Vec::new();
    let mut i: usize = 0;
    while i < members.len()
        invariant
            i <= members@.len(),
            forall|s: Seq<char>| #[trigger] is_listed(decl.attrs@, "field_setter_list"@, s) <==> in_names(setter_names@, s),
            forall|s: Seq<char>| #[trigger] is_listed(decl.attrs@, "field_getter_list"@, s) <==> in_names(getter_names@, s),
            ({
                let fm = field_members(members@.take(i as int));
                let mm = method_members(members@.take(i as int));
                &&& fields@.len() == fm.len()
                &&& forall|k: int|
                    0 <= k < fm.len() ==> {
                        &&& (#[trigger] fields@[k]).ident@ == fm[k].0
                        &&& fields@[k].inner_ty@ == fm[k].1
                        &&& fields@[k].has_setter == is_listed(decl.attrs@, "field_setter_list"@, fm[k].0)
                        &&& fields@[k].has_getter == is_listed(decl.attrs@, "field_getter_list"@, fm[k].0)
                    }
                &&& methods@.len() == mm.len()
                &&& forall|p: int|
                    0 <= p < mm.len() ==> {
                        &&& (#[trigger] methods@[p]).ident@ == mm[p].0
                        &&& methods@[p].args_ty@ == mm[p].1
                        &&& methods@[p].return_ty@ == mm[p].2
                    }
                &&& indices_of(fields@, true) == setter_fields@
                &&& indices_of(fields@, false) == getter_fields@
            }),
        decreases members@.len() - i,
    {
        let m = &members[i];
        proof {
            assert(members@.take(i + 1).drop_last() =~= members@.take(i as int));
            assert(members@.take(i + 1).last() == members@[i as int]);
        }
        let ghost old_fields = fields@;
        let ghost old_setters = setter_fields@;
        let ghost old_getters = getter_fields@;
        match classify_member(m) {
            MemberClassExec::Field(ident, inner_ty) => {
                let has_setter = contains_name(&setter_names, &ident);
                let has_getter = contains_name(&getter_names, &ident);
                let idx = fields.len();
                fields.push(FieldMember { ident, inner_ty, has_setter, has_getter });
                if has_setter {
                    setter_fields.push(idx);
                }
                if has_getter {
                    getter_fields.push(idx);
                }
                proof {
                    assert(fields@.drop_last() =~= old_fields);
                }
            },
            MemberClassExec::Method(ident, args_ty, return_ty) => {
                methods.push(MethodMember { ident, args_ty, return_ty });
            },
            MemberClassExec::Ignored => {},
        }
        i = i + 1;
    }
    assert(members@.take(members@.len() as int) =~= members@);
    if fields.len() == 0 && methods.len() == 0 {
        return Err(PlanError::NoMembers);
    }
    let validator_name = clone_string(&decl.name).concat("Validator");
    let runtime_param = match &decl.runtime_param {
        Some(p) => Some(p.clone()),
        None => None,
    };
    proof {
        lemma_indices_of_exact(fields@, true);
        lemma_indices_of_exact(fields@, false);
    }
    Ok(ValidatorPlan { validator_name, runtime_param, fields, setter_fields, getter_fields, methods })
}


/// A step the validator tracks, by its index within its group.
#[derive(Debug, Clone, Copy, PartialEq, Eq)]
pub enum StateParam {
    /// `S{i}`: field `i` has been updated once.
    Update(usize),
    /// `H{j}`: the `j`-th setter field has a set handler.
    SetHandler(usize),
    /// `G{k}`: the `k`-th getter field has a get handler.
    GetHandler(usize),
    /// `M{p}`: method `p` has a handler.
    MethodHandler(usize),
}

/// Sizes of the four groups of state parameters.
#[derive(Debug, Clone, Copy, PartialEq, Eq)]
pub struct ParamCounts {
    pub fields: usize,
    pub setters: usize,
    pub getters: usize,
    pub methods: usize,
}

/// Total number of state parameters.
pub open spec fn param_total(c: ParamCounts) -> int {
    c.fields + c.setters + c.getters + c.methods
}

/// The step exists for these counts.
pub open spec fn param_valid(c: ParamCounts, p: StateParam) -> bool {
    match p {
        StateParam::Update(i) => i < c.fields,
        StateParam::SetHandler(j) => j < c.setters,
        StateParam::GetHandler(k) => k < c.getters,
        StateParam::MethodHandler(m) => m < c.methods,
    }
}

/// Position of a step's parameter in `[S0..Sn, H0..Hm, G0..Gk, M0..Mp]`.
pub open spec fn param_index(c: ParamCounts, p: StateParam) -> int {
    match p {
        StateParam::Update(i) => i as int,
        StateParam::SetHandler(j) => c.fields + j,
        StateParam::GetHandler(k) => c.fields + c.setters + k,
        StateParam::MethodHandler(m) => c.fields + c.setters + c.getters + m,
    }
}

/// The step whose parameter sits at position `idx`.
pub open spec fn param_at(c: ParamCounts, idx: int) -> StateParam {
    if idx < c.fields {
        StateParam::Update(idx as usize)
    } else if idx < c.fields + c.setters {
        StateParam::SetHandler((idx - c.fields) as usize)
    } else if idx < c.fields + c.setters + c.getters {
        StateParam::GetHandler((idx - c.fields - c.setters) as usize)
    } else {
        StateParam::MethodHandler((idx - c.fields - c.setters - c.getters) as usize)
    }
}

/// The parameter layout is a one-to-one correspondence between the steps and the positions
/// `0..total`: every step has its own position, and every position belongs to one step.
pub proof fn lemma_param_layout_bijective(c: ParamCounts)
    ensures
        forall|p: StateParam| #[trigger] param_valid(c, p) ==> 0 <= param_index(c, p) < param_total(c) && param_at(c, param_index(c, p)) == p,
        forall|idx: int| 0 <= idx < param_total(c) ==> param_valid(c, #[trigger] param_at(c, idx)) && param_index(c, param_at(c, idx)) == idx,
{
}

impl ValidatorPlan {
    /// The sizes of the four parameter groups of this plan.
    pub fn counts(&self) -> (c: ParamCounts)
        ensures
            c.fields == self.fields@.len(),
            c.setters == self.setter_fields@.len(),
            c.getters == self.getter_fields@.len(),
            c.methods == self.methods@.len(),
    {
        ParamCounts {
            fields: self.fields.len(),
            setters: self.setter_fields.len(),
            getters: self.getter_fields.len(),
            methods: self.methods.len(),
        }
    }
}

impl ParamCounts {
    /// Total number of state parameters.
    pub fn total(&self) -> (n: usize)
        requires
            param_total(*self) <= usize::MAX,
        ensures
            n == param_total(*self),
    {
        self.fields + self.setters + self.getters + self.methods
    }

    /// Position of a step's parameter.
    pub fn index_of(&self, p: StateParam) -> (idx: usize)
        requires
            param_valid(*self, p),
            param_total(*self) <= usize::MAX,
        ensures
            idx == param_index(*self, p),
    {
        match p {
            StateParam::Update(i) => i,
            StateParam::SetHandler(j) => self.fields + j,
            StateParam::GetHandler(k) => self.fields + self.setters + k,
            StateParam::MethodHandler(m) => self.fields + self.setters + self.getters + m,
        }
    }
}

/// The validator's state: for each parameter, in layout order, whether its step is done
/// (`Init` / `HandlerSet`) or not (`Uninit` / `HandlerNotSet`).
pub struct ValidatorState {
    pub counts: ParamCounts,
    pub done: Vec<bool>,
}

impl ValidatorState {
    /// Well-formed: one flag per parameter.
    pub open spec fn wf(&self) -> bool {
        &&& param_total(self.counts) <= usize::MAX
        &&& self.done@.len() == param_total(self.counts)
    }

    /// `offer` is available: every step is done.
    pub open spec fn spec_can_offer(&self) -> bool {
        forall|idx: int| 0 <= idx < self.done@.len() ==> #[trigger] self.done@[idx]
    }

    /// The entry point: every parameter in its initial state.
    pub fn init(counts: ParamCounts) -> (s: Self)
        requires
            param_total(counts) <= usize::MAX,
        ensures
            s.wf(),
            s.counts == counts,
            forall|idx: int| 0 <= idx < param_total(counts) ==> !(#[trigger] s.done@[idx]),
    {
        let n = counts.total();
        let mut done: Vec<bool> = Vec::new();
        let mut i: usize = 0;
        while i < n
            invariant
                i <= n,
                done@.len() == i,
                forall|idx: int| 0 <= idx < i ==> !(#[trigger] done@[idx]),
            decreases n - i,
        {
            done.push(false);
            i = i + 1;
        }
        ValidatorState { counts, done }
    }

    /// Performs a step: its parameter becomes done, every other parameter stays as it was.
    pub fn step(&mut self, p: StateParam)
        requires
            old(self).wf(),
            param_valid(old(self).counts, p),
        ensures
            final(self).wf(),
            final(self).counts == old(self).counts,
            final(self).done@ == old(self).done@.update(param_index(old(self).counts, p), true),
    {
        let idx = self.counts.index_of(p);
        self.done.set(idx, true);
    }

    /// Whether `offer` is available.
    pub fn can_offer(&self) -> (r: bool)
        ensures
            r == self.spec_can_offer(),
    {
        let mut i: usize = 0;
        while i < self.done.len()
            invariant
                i <= self.done@.len(),
                forall|idx: int| 0 <= idx < i ==> #[trigger] self.done@[idx],
            decreases self.done@.len() - i,
        {
            if !self.done[i] {
                return false;
            }
            i = i + 1;
        }
        true
    }
}

/// `offer` is available exactly when every field has been updated, every setter field has a
/// set handler, every getter field has a get handler, and every method has a handler.
pub proof fn lemma_offer_iff_all_steps_done(s: ValidatorState)
    requires
        s.wf(),
    ensures
        s.spec_can_offer() <==> forall|p: StateParam| #[trigger] param_valid(s.counts, p) ==> s.done@[param_index(s.counts, p)],
{
    lemma_param_layout_bijective(s.counts);
    if forall|p: StateParam| #[trigger] param_valid(s.counts, p) ==> s.done@[param_index(s.counts, p)] {
        assert forall|idx: int| 0 <= idx < s.done@.len() implies #[trigger] s.done@[idx] by {
            let p = param_at(s.counts, idx);
            assert(param_valid(s.counts, p));
        }
    }
}

/// A freshly initialised validator of a plan can never be offered: a plan always tracks at
/// least one step.
pub proof fn lemma_init_not_offerable(s: ValidatorState)
    requires
        s.wf(),
        param_total(s.counts) > 0,
        forall|idx: int| 0 <= idx < param_total(s.counts) ==> !(#[trigger] s.done@[idx]),
    ensures
        !s.spec_can_offer(),
{
    assert(!s.done@[0]);
}

} // verus!
