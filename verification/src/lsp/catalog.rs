//! The catalog of core types offered in completions: Unity's common types and PrSM's
//! primitives, each with its members.
use vstd::prelude::*;

use crate::lsp::completion::{
    completion_snippet_for_signature, spec_completion_snippet_for_signature, spec_primitive_type_names,
    CompletionEntry, CompletionEntryKind,
};
use crate::lsp::names::{ascii_lowercase, spec_ascii_lowercase};
use crate::lsp::{canonical_type_ident, spec_canonical_type_ident};
use crate::text::{cat3, eq_ignore_ascii_case, owned, spec_eq_ignore_ascii_case, str_eq};

verus! {

/// A member of a core type: its name, entry kind, signature and one-line description.
pub struct CoreMember {
    pub name: &'static str,
    pub kind: CompletionEntryKind,
    pub signature: &'static str,
    pub description: &'static str,
}

/// A core type: its name, namespace, entry kind, kind label, description and members.
pub struct CoreType {
    pub name: &'static str,
    pub namespace: &'static str,
    pub kind: CompletionEntryKind,
    pub kind_label: &'static str,
    pub description: &'static str,
    pub members: Vec<CoreMember>,
}

/// A member as plain values: (name, kind, signature, description).
pub open spec fn core_member_model(m: CoreMember) -> (Seq<char>, CompletionEntryKind, Seq<char>, Seq<char>) {
    (m.name@, m.kind, m.signature@, m.description@)
}

/// A list of members as plain values.
pub open spec fn core_members_model(ms: Seq<CoreMember>) -> Seq<(Seq<char>, CompletionEntryKind, Seq<char>, Seq<char>)> {
    ms.map_values(|m: CoreMember| core_member_model(m))
}

/// A core type as plain values: (name, namespace, kind, kind label, description, members).
pub open spec fn core_type_model(t: CoreType) -> (Seq<char>, Seq<char>, CompletionEntryKind, Seq<char>, Seq<char>, Seq<(Seq<char>, CompletionEntryKind, Seq<char>, Seq<char>)>) {
    (t.name@, t.namespace@, t.kind, t.kind_label@, t.description@, core_members_model(t.members@))
}

/// The members of Mono Behaviour.
pub open spec fn spec_mono_behaviour_members() -> Seq<(Seq<char>, CompletionEntryKind, Seq<char>, Seq<char>)> {
    seq![
        ("gameObject"@, CompletionEntryKind::Property, "gameObject: GameObject"@, "The game object this component is attached to."@),
        ("transform"@, CompletionEntryKind::Property, "transform: Transform"@, "The Transform attached to this game object."@),
        ("enabled"@, CompletionEntryKind::Property, "enabled: Bool"@, "Enabled state of the component."@),
        ("tag"@, CompletionEntryKind::Property, "tag: String"@, "The tag of this game object."@),
        ("name"@, CompletionEntryKind::Property, "name: String"@, "The name of this object."@),
        ("destroyCancellationToken"@, CompletionEntryKind::Property, "destroyCancellationToken: CancellationToken"@, "Raised when the behaviour is destroyed."@),
        ("didAwake"@, CompletionEntryKind::Property, "didAwake: Bool"@, "Whether Awake has already run."@),
        ("didStart"@, CompletionEntryKind::Property, "didStart: Bool"@, "Whether Start has already run."@),
        ("runInEditMode"@, CompletionEntryKind::Property, "runInEditMode: Bool"@, "Allows the behaviour to run in edit mode."@),
        ("getComponent"@, CompletionEntryKind::Method, "getComponent<T>(): T"@, "Gets a component on this object."@),
        ("getComponentInChildren"@, CompletionEntryKind::Method, "getComponentInChildren<T>(): T"@, "Gets a component from children."@),
        ("getComponentInParent"@, CompletionEntryKind::Method, "getComponentInParent<T>(): T"@, "Gets a component from parents."@),
        ("startCoroutine"@, CompletionEntryKind::Method, "startCoroutine(routine: IEnumerator): Coroutine"@, "Starts a coroutine."@),
        ("stopCoroutine"@, CompletionEntryKind::Method, "stopCoroutine(routine: Coroutine): Unit"@, "Stops a coroutine."@),
        ("stopAllCoroutines"@, CompletionEntryKind::Method, "stopAllCoroutines(): Unit"@, "Stops all coroutines."@),
        ("invoke"@, CompletionEntryKind::Method, "invoke(methodName: String, time: Float): Unit"@, "Invokes a method after a delay."@),
        ("cancelInvoke"@, CompletionEntryKind::Method, "cancelInvoke(): Unit"@, "Cancels pending invokes."@),
        ("isInvoking"@, CompletionEntryKind::Method, "isInvoking(methodName: String): Bool"@, "Checks whether an invoke is pending."@),
    ]
}

/// The members of Mono Behaviour, in table order.
pub fn mono_behaviour_members() -> (r: Vec<CoreMember>)
    ensures
        core_members_model(r@) == spec_mono_behaviour_members(),
{
    let r = vec![
        CoreMember { name: "gameObject", kind: CompletionEntryKind::Property, signature: "gameObject: GameObject", description: "The game object this component is attached to." },
        CoreMember { name: "transform", kind: CompletionEntryKind::Property, signature: "transform: Transform", description: "The Transform attached to this game object." },
        CoreMember { name: "enabled", kind: CompletionEntryKind::Property, signature: "enabled: Bool", description: "Enabled state of the component." },
        CoreMember { name: "tag", kind: CompletionEntryKind::Property, signature: "tag: String", description: "The tag of this game object." },
        CoreMember { name: "name", kind: CompletionEntryKind::Property, signature: "name: String", description: "The name of this object." },
        CoreMember { name: "destroyCancellationToken", kind: CompletionEntryKind::Property, signature: "destroyCancellationToken: CancellationToken", description: "Raised when the behaviour is destroyed." },
        CoreMember { name: "didAwake", kind: CompletionEntryKind::Property, signature: "didAwake: Bool", description: "Whether Awake has already run." },
        CoreMember { name: "didStart", kind: CompletionEntryKind::Property, signature: "didStart: Bool", description: "Whether Start has already run." },
        CoreMember { name: "runInEditMode", kind: CompletionEntryKind::Property, signature: "runInEditMode: Bool", description: "Allows the behaviour to run in edit mode." },
        CoreMember { name: "getComponent", kind: CompletionEntryKind::Method, signature: "getComponent<T>(): T", description: "Gets a component on this object." },
        CoreMember { name: "getComponentInChildren", kind: CompletionEntryKind::Method, signature: "getComponentInChildren<T>(): T", description: "Gets a component from children." },
        CoreMember { name: "getComponentInParent", kind: CompletionEntryKind::Method, signature: "getComponentInParent<T>(): T", description: "Gets a component from parents." },
        CoreMember { name: "startCoroutine", kind: CompletionEntryKind::Method, signature: "startCoroutine(routine: IEnumerator): Coroutine", description: "Starts a coroutine." },
        CoreMember { name: "stopCoroutine", kind: CompletionEntryKind::Method, signature: "stopCoroutine(routine: Coroutine): Unit", description: "Stops a coroutine." },
        CoreMember { name: "stopAllCoroutines", kind: CompletionEntryKind::Method, signature: "stopAllCoroutines(): Unit", description: "Stops all coroutines." },
        CoreMember { name: "invoke", kind: CompletionEntryKind::Method, signature: "invoke(methodName: String, time: Float): Unit", description: "Invokes a method after a delay." },
        CoreMember { name: "cancelInvoke", kind: CompletionEntryKind::Method, signature: "cancelInvoke(): Unit", description: "Cancels pending invokes." },
        CoreMember { name: "isInvoking", kind: CompletionEntryKind::Method, signature: "isInvoking(methodName: String): Bool", description: "Checks whether an invoke is pending." },
    ];
    proof {
        assert(core_members_model(r@) =~= spec_mono_behaviour_members());
    }
    r
}

/// The members of Game Object.
pub open spec fn spec_game_object_members() -> Seq<(Seq<char>, CompletionEntryKind, Seq<char>, Seq<char>)> {
    seq![
        ("transform"@, CompletionEntryKind::Property, "transform: Transform"@, "The Transform of this object."@),
        ("activeSelf"@, CompletionEntryKind::Property, "activeSelf: Bool"@, "Whether this object is active."@),
        ("activeInHierarchy"@, CompletionEntryKind::Property, "activeInHierarchy: Bool"@, "Whether this object is active in the hierarchy."@),
        ("tag"@, CompletionEntryKind::Property, "tag: String"@, "The tag of this object."@),
        ("name"@, CompletionEntryKind::Property, "name: String"@, "The name of this object."@),
        ("layer"@, CompletionEntryKind::Property, "layer: Int"@, "The layer index for this object."@),
        ("scene"@, CompletionEntryKind::Property, "scene: Scene"@, "The scene this object belongs to."@),
        ("setActive"@, CompletionEntryKind::Method, "setActive(value: Bool): Unit"@, "Activates or deactivates the object."@),
        ("getComponent"@, CompletionEntryKind::Method, "getComponent<T>(): T"@, "Gets a component."@),
        ("getComponentInChildren"@, CompletionEntryKind::Method, "getComponentInChildren<T>(): T"@, "Gets a component from children."@),
        ("getComponentInParent"@, CompletionEntryKind::Method, "getComponentInParent<T>(): T"@, "Gets a component from parents."@),
        ("getComponentsInChildren"@, CompletionEntryKind::Method, "getComponentsInChildren<T>(): T[]"@, "Gets matching components from children."@),
        ("addComponent"@, CompletionEntryKind::Method, "addComponent<T>(): T"@, "Adds a component."@),
        ("compareTag"@, CompletionEntryKind::Method, "compareTag(tag: String): Bool"@, "Compares the tag."@),
        ("find"@, CompletionEntryKind::Method, "find(name: String): GameObject"@, "Finds a game object by name."@),
        ("destroy"@, CompletionEntryKind::Method, "destroy(): Unit"@, "Destroys the object."@),
    ]
}

/// The members of Game Object, in table order.
pub fn game_object_members() -> (r: Vec<CoreMember>)
    ensures
        core_members_model(r@) == spec_game_object_members(),
{
    let r = vec![
        CoreMember { name: "transform", kind: CompletionEntryKind::Property, signature: "transform: Transform", description: "The Transform of this object." },
        CoreMember { name: "activeSelf", kind: CompletionEntryKind::Property, signature: "activeSelf: Bool", description: "Whether this object is active." },
        CoreMember { name: "activeInHierarchy", kind: CompletionEntryKind::Property, signature: "activeInHierarchy: Bool", description: "Whether this object is active in the hierarchy." },
        CoreMember { name: "tag", kind: CompletionEntryKind::Property, signature: "tag: String", description: "The tag of this object." },
        CoreMember { name: "name", kind: CompletionEntryKind::Property, signature: "name: String", description: "The name of this object." },
        CoreMember { name: "layer", kind: CompletionEntryKind::Property, signature: "layer: Int", description: "The layer index for this object." },
        CoreMember { name: "scene", kind: CompletionEntryKind::Property, signature: "scene: Scene", description: "The scene this object belongs to." },
        CoreMember { name: "setActive", kind: CompletionEntryKind::Method, signature: "setActive(value: Bool): Unit", description: "Activates or deactivates the object." },
        CoreMember { name: "getComponent", kind: CompletionEntryKind::Method, signature: "getComponent<T>(): T", description: "Gets a component." },
        CoreMember { name: "getComponentInChildren", kind: CompletionEntryKind::Method, signature: "getComponentInChildren<T>(): T", description: "Gets a component from children." },
        CoreMember { name: "getComponentInParent", kind: CompletionEntryKind::Method, signature: "getComponentInParent<T>(): T", description: "Gets a component from parents." },
        CoreMember { name: "getComponentsInChildren", kind: CompletionEntryKind::Method, signature: "getComponentsInChildren<T>(): T[]", description: "Gets matching components from children." },
        CoreMember { name: "addComponent", kind: CompletionEntryKind::Method, signature: "addComponent<T>(): T", description: "Adds a component." },
        CoreMember { name: "compareTag", kind: CompletionEntryKind::Method, signature: "compareTag(tag: String): Bool", description: "Compares the tag." },
        CoreMember { name: "find", kind: CompletionEntryKind::Method, signature: "find(name: String): GameObject", description: "Finds a game object by name." },
        CoreMember { name: "destroy", kind: CompletionEntryKind::Method, signature: "destroy(): Unit", description: "Destroys the object." },
    ];
    proof {
        assert(core_members_model(r@) =~= spec_game_object_members());
    }
    r
}

/// The members of Transform.
pub open spec fn spec_transform_members() -> Seq<(Seq<char>, CompletionEntryKind, Seq<char>, Seq<char>)> {
    seq![
        ("position"@, CompletionEntryKind::Property, "position: Vector3"@, "World space position."@),
        ("localPosition"@, CompletionEntryKind::Property, "localPosition: Vector3"@, "Local space position."@),
        ("rotation"@, CompletionEntryKind::Property, "rotation: Quaternion"@, "World space rotation."@),
        ("localRotation"@, CompletionEntryKind::Property, "localRotation: Quaternion"@, "Local space rotation."@),
        ("localScale"@, CompletionEntryKind::Property, "localScale: Vector3"@, "Local scale."@),
        ("forward"@, CompletionEntryKind::Property, "forward: Vector3"@, "Forward direction."@),
        ("right"@, CompletionEntryKind::Property, "right: Vector3"@, "Right direction."@),
        ("up"@, CompletionEntryKind::Property, "up: Vector3"@, "Up direction."@),
        ("parent"@, CompletionEntryKind::Property, "parent: Transform"@, "Parent transform."@),
        ("root"@, CompletionEntryKind::Property, "root: Transform"@, "Topmost transform in the hierarchy."@),
        ("childCount"@, CompletionEntryKind::Property, "childCount: Int"@, "Number of children."@),
        ("hasChanged"@, CompletionEntryKind::Property, "hasChanged: Bool"@, "Whether the transform changed since the last reset."@),
        ("lossyScale"@, CompletionEntryKind::Property, "lossyScale: Vector3"@, "World-space scale."@),
        ("translate"@, CompletionEntryKind::Method, "translate(translation: Vector3): Unit"@, "Moves the transform."@),
        ("rotate"@, CompletionEntryKind::Method, "rotate(eulers: Vector3): Unit"@, "Rotates the transform."@),
        ("lookAt"@, CompletionEntryKind::Method, "lookAt(target: Transform): Unit"@, "Looks at a target."@),
        ("setParent"@, CompletionEntryKind::Method, "setParent(parent: Transform): Unit"@, "Changes the parent transform."@),
        ("getChild"@, CompletionEntryKind::Method, "getChild(index: Int): Transform"@, "Gets the child at an index."@),
        ("transformPoint"@, CompletionEntryKind::Method, "transformPoint(position: Vector3): Vector3"@, "Transforms a local point into world space."@),
        ("inverseTransformPoint"@, CompletionEntryKind::Method, "inverseTransformPoint(position: Vector3): Vector3"@, "Transforms a world point into local space."@),
    ]
}

/// The members of Transform, in table order.
pub fn transform_members() -> (r: Vec<CoreMember>)
    ensures
        core_members_model(r@) == spec_transform_members(),
{
    let r = vec![
        CoreMember { name: "position", kind: CompletionEntryKind::Property, signature: "position: Vector3", description: "World space position." },
        CoreMember { name: "localPosition", kind: CompletionEntryKind::Property, signature: "localPosition: Vector3", description: "Local space position." },
        CoreMember { name: "rotation", kind: CompletionEntryKind::Property, signature: "rotation: Quaternion", description: "World space rotation." },
        CoreMember { name: "localRotation", kind: CompletionEntryKind::Property, signature: "localRotation: Quaternion", description: "Local space rotation." },
        CoreMember { name: "localScale", kind: CompletionEntryKind::Property, signature: "localScale: Vector3", description: "Local scale." },
        CoreMember { name: "forward", kind: CompletionEntryKind::Property, signature: "forward: Vector3", description: "Forward direction." },
        CoreMember { name: "right", kind: CompletionEntryKind::Property, signature: "right: Vector3", description: "Right direction." },
        CoreMember { name: "up", kind: CompletionEntryKind::Property, signature: "up: Vector3", description: "Up direction." },
        CoreMember { name: "parent", kind: CompletionEntryKind::Property, signature: "parent: Transform", description: "Parent transform." },
        CoreMember { name: "root", kind: CompletionEntryKind::Property, signature: "root: Transform", description: "Topmost transform in the hierarchy." },
        CoreMember { name: "childCount", kind: CompletionEntryKind::Property, signature: "childCount: Int", description: "Number of children." },
        CoreMember { name: "hasChanged", kind: CompletionEntryKind::Property, signature: "hasChanged: Bool", description: "Whether the transform changed since the last reset." },
        CoreMember { name: "lossyScale", kind: CompletionEntryKind::Property, signature: "lossyScale: Vector3", description: "World-space scale." },
        CoreMember { name: "translate", kind: CompletionEntryKind::Method, signature: "translate(translation: Vector3): Unit", description: "Moves the transform." },
        CoreMember { name: "rotate", kind: CompletionEntryKind::Method, signature: "rotate(eulers: Vector3): Unit", description: "Rotates the transform." },
        CoreMember { name: "lookAt", kind: CompletionEntryKind::Method, signature: "lookAt(target: Transform): Unit", description: "Looks at a target." },
        CoreMember { name: "setParent", kind: CompletionEntryKind::Method, signature: "setParent(parent: Transform): Unit", description: "Changes the parent transform." },
        CoreMember { name: "getChild", kind: CompletionEntryKind::Method, signature: "getChild(index: Int): Transform", description: "Gets the child at an index." },
        CoreMember { name: "transformPoint", kind: CompletionEntryKind::Method, signature: "transformPoint(position: Vector3): Vector3", description: "Transforms a local point into world space." },
        CoreMember { name: "inverseTransformPoint", kind: CompletionEntryKind::Method, signature: "inverseTransformPoint(position: Vector3): Vector3", description: "Transforms a world point into local space." },
    ];
    proof {
        assert(core_members_model(r@) =~= spec_transform_members());
    }
    r
}

/// The members of Rigidbody.
pub open spec fn spec_rigidbody_members() -> Seq<(Seq<char>, CompletionEntryKind, Seq<char>, Seq<char>)> {
    seq![
        ("velocity"@, CompletionEntryKind::Property, "velocity: Vector3"@, "Linear velocity."@),
        ("angularVelocity"@, CompletionEntryKind::Property, "angularVelocity: Vector3"@, "Angular velocity."@),
        ("mass"@, CompletionEntryKind::Property, "mass: Float"@, "Mass."@),
        ("drag"@, CompletionEntryKind::Property, "drag: Float"@, "Drag coefficient."@),
        ("useGravity"@, CompletionEntryKind::Property, "useGravity: Bool"@, "Whether gravity is enabled."@),
        ("isKinematic"@, CompletionEntryKind::Property, "isKinematic: Bool"@, "Whether the body is kinematic."@),
        ("position"@, CompletionEntryKind::Property, "position: Vector3"@, "World-space position."@),
        ("rotation"@, CompletionEntryKind::Property, "rotation: Quaternion"@, "World-space rotation."@),
        ("constraints"@, CompletionEntryKind::Property, "constraints: RigidbodyConstraints"@, "Applied movement constraints."@),
        ("addForce"@, CompletionEntryKind::Method, "addForce(force: Vector3): Unit"@, "Adds force."@),
        ("addTorque"@, CompletionEntryKind::Method, "addTorque(torque: Vector3): Unit"@, "Adds torque."@),
        ("movePosition"@, CompletionEntryKind::Method, "movePosition(position: Vector3): Unit"@, "Moves the rigidbody."@),
        ("sleep"@, CompletionEntryKind::Method, "sleep(): Unit"@, "Forces the rigidbody to sleep."@),
        ("wakeUp"@, CompletionEntryKind::Method, "wakeUp(): Unit"@, "Wakes the rigidbody if it is sleeping."@),
    ]
}

/// The members of Rigidbody, in table order.
pub fn rigidbody_members() -> (r: Vec<CoreMember>)
    ensures
        core_members_model(r@) == spec_rigidbody_members(),
{
    let r = vec![
        CoreMember { name: "velocity", kind: CompletionEntryKind::Property, signature: "velocity: Vector3", description: "Linear velocity." },
        CoreMember { name: "angularVelocity", kind: CompletionEntryKind::Property, signature: "angularVelocity: Vector3", description: "Angular velocity." },
        CoreMember { name: "mass", kind: CompletionEntryKind::Property, signature: "mass: Float", description: "Mass." },
        CoreMember { name: "drag", kind: CompletionEntryKind::Property, signature: "drag: Float", description: "Drag coefficient." },
        CoreMember { name: "useGravity", kind: CompletionEntryKind::Property, signature: "useGravity: Bool", description: "Whether gravity is enabled." },
        CoreMember { name: "isKinematic", kind: CompletionEntryKind::Property, signature: "isKinematic: Bool", description: "Whether the body is kinematic." },
        CoreMember { name: "position", kind: CompletionEntryKind::Property, signature: "position: Vector3", description: "World-space position." },
        CoreMember { name: "rotation", kind: CompletionEntryKind::Property, signature: "rotation: Quaternion", description: "World-space rotation." },
        CoreMember { name: "constraints", kind: CompletionEntryKind::Property, signature: "constraints: RigidbodyConstraints", description: "Applied movement constraints." },
        CoreMember { name: "addForce", kind: CompletionEntryKind::Method, signature: "addForce(force: Vector3): Unit", description: "Adds force." },
        CoreMember { name: "addTorque", kind: CompletionEntryKind::Method, signature: "addTorque(torque: Vector3): Unit", description: "Adds torque." },
        CoreMember { name: "movePosition", kind: CompletionEntryKind::Method, signature: "movePosition(position: Vector3): Unit", description: "Moves the rigidbody." },
        CoreMember { name: "sleep", kind: CompletionEntryKind::Method, signature: "sleep(): Unit", description: "Forces the rigidbody to sleep." },
        CoreMember { name: "wakeUp", kind: CompletionEntryKind::Method, signature: "wakeUp(): Unit", description: "Wakes the rigidbody if it is sleeping." },
    ];
    proof {
        assert(core_members_model(r@) =~= spec_rigidbody_members());
    }
    r
}

/// The members of Animator.
pub open spec fn spec_animator_members() -> Seq<(Seq<char>, CompletionEntryKind, Seq<char>, Seq<char>)> {
    seq![
        ("speed"@, CompletionEntryKind::Property, "speed: Float"@, "Playback speed."@),
        ("applyRootMotion"@, CompletionEntryKind::Property, "applyRootMotion: Bool"@, "Whether root motion is applied."@),
        ("play"@, CompletionEntryKind::Method, "play(stateName: String): Unit"@, "Plays an animation state."@),
        ("crossFade"@, CompletionEntryKind::Method, "crossFade(stateName: String, normalizedTransitionDuration: Float): Unit"@, "Cross-fades to another state."@),
        ("setBool"@, CompletionEntryKind::Method, "setBool(name: String, value: Bool): Unit"@, "Sets a bool parameter."@),
        ("setFloat"@, CompletionEntryKind::Method, "setFloat(name: String, value: Float): Unit"@, "Sets a float parameter."@),
        ("setInteger"@, CompletionEntryKind::Method, "setInteger(name: String, value: Int): Unit"@, "Sets an integer parameter."@),
        ("setTrigger"@, CompletionEntryKind::Method, "setTrigger(name: String): Unit"@, "Sets a trigger parameter."@),
        ("resetTrigger"@, CompletionEntryKind::Method, "resetTrigger(name: String): Unit"@, "Resets a trigger parameter."@),
        ("setLayerWeight"@, CompletionEntryKind::Method, "setLayerWeight(layerIndex: Int, weight: Float): Unit"@, "Sets the weight for a layer."@),
    ]
}

/// The members of Animator, in table order.
pub fn animator_members() -> (r: Vec<CoreMember>)
    ensures
        core_members_model(r@) == spec_animator_members(),
{
    let r = vec![
        CoreMember { name: "speed", kind: CompletionEntryKind::Property, signature: "speed: Float", description: "Playback speed." },
        CoreMember { name: "applyRootMotion", kind: CompletionEntryKind::Property, signature: "applyRootMotion: Bool", description: "Whether root motion is applied." },
        CoreMember { name: "play", kind: CompletionEntryKind::Method, signature: "play(stateName: String): Unit", description: "Plays an animation state." },
        CoreMember { name: "crossFade", kind: CompletionEntryKind::Method, signature: "crossFade(stateName: String, normalizedTransitionDuration: Float): Unit", description: "Cross-fades to another state." },
        CoreMember { name: "setBool", kind: CompletionEntryKind::Method, signature: "setBool(name: String, value: Bool): Unit", description: "Sets a bool parameter." },
        CoreMember { name: "setFloat", kind: CompletionEntryKind::Method, signature: "setFloat(name: String, value: Float): Unit", description: "Sets a float parameter." },
        CoreMember { name: "setInteger", kind: CompletionEntryKind::Method, signature: "setInteger(name: String, value: Int): Unit", description: "Sets an integer parameter." },
        CoreMember { name: "setTrigger", kind: CompletionEntryKind::Method, signature: "setTrigger(name: String): Unit", description: "Sets a trigger parameter." },
        CoreMember { name: "resetTrigger", kind: CompletionEntryKind::Method, signature: "resetTrigger(name: String): Unit", description: "Resets a trigger parameter." },
        CoreMember { name: "setLayerWeight", kind: CompletionEntryKind::Method, signature: "setLayerWeight(layerIndex: Int, weight: Float): Unit", description: "Sets the weight for a layer." },
    ];
    proof {
        assert(core_members_model(r@) =~= spec_animator_members());
    }
    r
}

/// The members of Collider.
pub open spec fn spec_collider_members() -> Seq<(Seq<char>, CompletionEntryKind, Seq<char>, Seq<char>)> {
    seq![
        ("enabled"@, CompletionEntryKind::Property, "enabled: Bool"@, "Enabled state."@),
        ("isTrigger"@, CompletionEntryKind::Property, "isTrigger: Bool"@, "Whether the collider is a trigger."@),
        ("gameObject"@, CompletionEntryKind::Property, "gameObject: GameObject"@, "Attached GameObject."@),
        ("transform"@, CompletionEntryKind::Property, "transform: Transform"@, "Attached Transform."@),
        ("bounds"@, CompletionEntryKind::Property, "bounds: Bounds"@, "World-space bounding volume."@),
        ("attachedRigidbody"@, CompletionEntryKind::Property, "attachedRigidbody: Rigidbody"@, "Attached rigidbody, if any."@),
        ("material"@, CompletionEntryKind::Property, "material: PhysicMaterial"@, "Assigned physics material."@),
        ("compareTag"@, CompletionEntryKind::Method, "compareTag(tag: String): Bool"@, "Compares the tag."@),
    ]
}

/// The members of Collider, in table order.
pub fn collider_members() -> (r: Vec<CoreMember>)
    ensures
        core_members_model(r@) == spec_collider_members(),
{
    let r = vec![
        CoreMember { name: "enabled", kind: CompletionEntryKind::Property, signature: "enabled: Bool", description: "Enabled state." },
        CoreMember { name: "isTrigger", kind: CompletionEntryKind::Property, signature: "isTrigger: Bool", description: "Whether the collider is a trigger." },
        CoreMember { name: "gameObject", kind: CompletionEntryKind::Property, signature: "gameObject: GameObject", description: "Attached GameObject." },
        CoreMember { name: "transform", kind: CompletionEntryKind::Property, signature: "transform: Transform", description: "Attached Transform." },
        CoreMember { name: "bounds", kind: CompletionEntryKind::Property, signature: "bounds: Bounds", description: "World-space bounding volume." },
        CoreMember { name: "attachedRigidbody", kind: CompletionEntryKind::Property, signature: "attachedRigidbody: Rigidbody", description: "Attached rigidbody, if any." },
        CoreMember { name: "material", kind: CompletionEntryKind::Property, signature: "material: PhysicMaterial", description: "Assigned physics material." },
        CoreMember { name: "compareTag", kind: CompletionEntryKind::Method, signature: "compareTag(tag: String): Bool", description: "Compares the tag." },
    ];
    proof {
        assert(core_members_model(r@) =~= spec_collider_members());
    }
    r
}

/// The members of Collision.
pub open spec fn spec_collision_members() -> Seq<(Seq<char>, CompletionEntryKind, Seq<char>, Seq<char>)> {
    seq![
        ("gameObject"@, CompletionEntryKind::Property, "gameObject: GameObject"@, "The other GameObject."@),
        ("transform"@, CompletionEntryKind::Property, "transform: Transform"@, "The other Transform."@),
        ("relativeVelocity"@, CompletionEntryKind::Property, "relativeVelocity: Vector3"@, "Relative velocity."@),
        ("collider"@, CompletionEntryKind::Property, "collider: Collider"@, "The other collider."@),
    ]
}

/// The members of Collision, in table order.
pub fn collision_members() -> (r: Vec<CoreMember>)
    ensures
        core_members_model(r@) == spec_collision_members(),
{
    let r = vec![
        CoreMember { name: "gameObject", kind: CompletionEntryKind::Property, signature: "gameObject: GameObject", description: "The other GameObject." },
        CoreMember { name: "transform", kind: CompletionEntryKind::Property, signature: "transform: Transform", description: "The other Transform." },
        CoreMember { name: "relativeVelocity", kind: CompletionEntryKind::Property, signature: "relativeVelocity: Vector3", description: "Relative velocity." },
        CoreMember { name: "collider", kind: CompletionEntryKind::Property, signature: "collider: Collider", description: "The other collider." },
    ];
    proof {
        assert(core_members_model(r@) =~= spec_collision_members());
    }
    r
}

/// The members of Input.
pub open spec fn spec_input_members() -> Seq<(Seq<char>, CompletionEntryKind, Seq<char>, Seq<char>)> {
    seq![
        ("axis"@, CompletionEntryKind::Method, "axis(axisName: String): Float"@, "Gets an axis value."@),
        ("getAxis"@, CompletionEntryKind::Method, "getAxis(axisName: String): Float"@, "Gets a smoothed axis value."@),
        ("getAxisRaw"@, CompletionEntryKind::Method, "getAxisRaw(axisName: String): Float"@, "Gets a raw axis value."@),
        ("getButton"@, CompletionEntryKind::Method, "getButton(buttonName: String): Bool"@, "Returns whether a named button is held."@),
        ("getButtonDown"@, CompletionEntryKind::Method, "getButtonDown(buttonName: String): Bool"@, "Returns whether a named button was pressed this frame."@),
        ("getKey"@, CompletionEntryKind::Method, "getKey(key: KeyCode): Bool"@, "Returns whether a key is held."@),
        ("getKeyDown"@, CompletionEntryKind::Method, "getKeyDown(key: KeyCode): Bool"@, "Returns whether a key was pressed this frame."@),
        ("getMouseButton"@, CompletionEntryKind::Method, "getMouseButton(button: Int): Bool"@, "Returns whether a mouse button is held."@),
        ("getMouseButtonDown"@, CompletionEntryKind::Method, "getMouseButtonDown(button: Int): Bool"@, "Returns whether a mouse button was pressed this frame."@),
        ("mousePosition"@, CompletionEntryKind::Property, "mousePosition: Vector3"@, "Mouse position."@),
        ("anyKeyDown"@, CompletionEntryKind::Property, "anyKeyDown: Bool"@, "Whether any key or mouse button was pressed this frame."@),
    ]
}

/// The members of Input, in table order.
pub fn input_members() -> (r: Vec<CoreMember>)
    ensures
        core_members_model(r@) == spec_input_members(),
{
    let r = vec![
        CoreMember { name: "axis", kind: CompletionEntryKind::Method, signature: "axis(axisName: String): Float", description: "Gets an axis value." },
        CoreMember { name: "getAxis", kind: CompletionEntryKind::Method, signature: "getAxis(axisName: String): Float", description: "Gets a smoothed axis value." },
        CoreMember { name: "getAxisRaw", kind: CompletionEntryKind::Method, signature: "getAxisRaw(axisName: String): Float", description: "Gets a raw axis value." },
        CoreMember { name: "getButton", kind: CompletionEntryKind::Method, signature: "getButton(buttonName: String): Bool", description: "Returns whether a named button is held." },
        CoreMember { name: "getButtonDown", kind: CompletionEntryKind::Method, signature: "getButtonDown(buttonName: String): Bool", description: "Returns whether a named button was pressed this frame." },
        CoreMember { name: "getKey", kind: CompletionEntryKind::Method, signature: "getKey(key: KeyCode): Bool", description: "Returns whether a key is held." },
        CoreMember { name: "getKeyDown", kind: CompletionEntryKind::Method, signature: "getKeyDown(key: KeyCode): Bool", description: "Returns whether a key was pressed this frame." },
        CoreMember { name: "getMouseButton", kind: CompletionEntryKind::Method, signature: "getMouseButton(button: Int): Bool", description: "Returns whether a mouse button is held." },
        CoreMember { name: "getMouseButtonDown", kind: CompletionEntryKind::Method, signature: "getMouseButtonDown(button: Int): Bool", description: "Returns whether a mouse button was pressed this frame." },
        CoreMember { name: "mousePosition", kind: CompletionEntryKind::Property, signature: "mousePosition: Vector3", description: "Mouse position." },
        CoreMember { name: "anyKeyDown", kind: CompletionEntryKind::Property, signature: "anyKeyDown: Bool", description: "Whether any key or mouse button was pressed this frame." },
    ];
    proof {
        assert(core_members_model(r@) =~= spec_input_members());
    }
    r
}

/// The members of Time.
pub open spec fn spec_time_members() -> Seq<(Seq<char>, CompletionEntryKind, Seq<char>, Seq<char>)> {
    seq![
        ("deltaTime"@, CompletionEntryKind::Property, "deltaTime: Float"@, "Time since the previous frame."@),
        ("fixedDeltaTime"@, CompletionEntryKind::Property, "fixedDeltaTime: Float"@, "Fixed timestep interval."@),
        ("time"@, CompletionEntryKind::Property, "time: Float"@, "Time since startup."@),
        ("fixedTime"@, CompletionEntryKind::Property, "fixedTime: Float"@, "Time since startup at the last fixed update."@),
        ("timeScale"@, CompletionEntryKind::Property, "timeScale: Float"@, "Global time scale."@),
        ("unscaledDeltaTime"@, CompletionEntryKind::Property, "unscaledDeltaTime: Float"@, "Frame delta time unaffected by timeScale."@),
        ("frameCount"@, CompletionEntryKind::Property, "frameCount: Int"@, "Rendered frame count."@),
    ]
}

/// The members of Time, in table order.
pub fn time_members() -> (r: Vec<CoreMember>)
    ensures
        core_members_model(r@) == spec_time_members(),
{
    let r = vec![
        CoreMember { name: "deltaTime", kind: CompletionEntryKind::Property, signature: "deltaTime: Float", description: "Time since the previous frame." },
        CoreMember { name: "fixedDeltaTime", kind: CompletionEntryKind::Property, signature: "fixedDeltaTime: Float", description: "Fixed timestep interval." },
        CoreMember { name: "time", kind: CompletionEntryKind::Property, signature: "time: Float", description: "Time since startup." },
        CoreMember { name: "fixedTime", kind: CompletionEntryKind::Property, signature: "fixedTime: Float", description: "Time since startup at the last fixed update." },
        CoreMember { name: "timeScale", kind: CompletionEntryKind::Property, signature: "timeScale: Float", description: "Global time scale." },
        CoreMember { name: "unscaledDeltaTime", kind: CompletionEntryKind::Property, signature: "unscaledDeltaTime: Float", description: "Frame delta time unaffected by timeScale." },
        CoreMember { name: "frameCount", kind: CompletionEntryKind::Property, signature: "frameCount: Int", description: "Rendered frame count." },
    ];
    proof {
        assert(core_members_model(r@) =~= spec_time_members());
    }
    r
}

/// The members of Debug.
pub open spec fn spec_debug_members() -> Seq<(Seq<char>, CompletionEntryKind, Seq<char>, Seq<char>)> {
    seq![
        ("log"@, CompletionEntryKind::Method, "log(message: Any): Unit"@, "Logs a message."@),
        ("logWarning"@, CompletionEntryKind::Method, "logWarning(message: Any): Unit"@, "Logs a warning."@),
        ("logError"@, CompletionEntryKind::Method, "logError(message: Any): Unit"@, "Logs an error."@),
        ("drawLine"@, CompletionEntryKind::Method, "drawLine(start: Vector3, end: Vector3, color: Color): Unit"@, "Draws a debug line."@),
        ("assert"@, CompletionEntryKind::Method, "assert(condition: Bool, message: String): Unit"@, "Logs an assertion if the condition is false."@),
    ]
}

/// The members of Debug, in table order.
pub fn debug_members() -> (r: Vec<CoreMember>)
    ensures
        core_members_model(r@) == spec_debug_members(),
{
    let r = vec![
        CoreMember { name: "log", kind: CompletionEntryKind::Method, signature: "log(message: Any): Unit", description: "Logs a message." },
        CoreMember { name: "logWarning", kind: CompletionEntryKind::Method, signature: "logWarning(message: Any): Unit", description: "Logs a warning." },
        CoreMember { name: "logError", kind: CompletionEntryKind::Method, signature: "logError(message: Any): Unit", description: "Logs an error." },
        CoreMember { name: "drawLine", kind: CompletionEntryKind::Method, signature: "drawLine(start: Vector3, end: Vector3, color: Color): Unit", description: "Draws a debug line." },
        CoreMember { name: "assert", kind: CompletionEntryKind::Method, signature: "assert(condition: Bool, message: String): Unit", description: "Logs an assertion if the condition is false." },
    ];
    proof {
        assert(core_members_model(r@) =~= spec_debug_members());
    }
    r
}

/// The members of Physics.
pub open spec fn spec_physics_members() -> Seq<(Seq<char>, CompletionEntryKind, Seq<char>, Seq<char>)> {
    seq![
        ("raycast"@, CompletionEntryKind::Method, "raycast(origin: Vector3, direction: Vector3, maxDistance: Float): Bool"@, "Casts a ray."@),
        ("gravity"@, CompletionEntryKind::Property, "gravity: Vector3"@, "Global gravity."@),
        ("sphereCast"@, CompletionEntryKind::Method, "sphereCast(origin: Vector3, radius: Float, direction: Vector3, maxDistance: Float): Bool"@, "Casts a sphere through the world."@),
        ("overlapSphere"@, CompletionEntryKind::Method, "overlapSphere(position: Vector3, radius: Float): Collider[]"@, "Returns colliders touching a sphere."@),
    ]
}

/// The members of Physics, in table order.
pub fn physics_members() -> (r: Vec<CoreMember>)
    ensures
        core_members_model(r@) == spec_physics_members(),
{
    let r = vec![
        CoreMember { name: "raycast", kind: CompletionEntryKind::Method, signature: "raycast(origin: Vector3, direction: Vector3, maxDistance: Float): Bool", description: "Casts a ray." },
        CoreMember { name: "gravity", kind: CompletionEntryKind::Property, signature: "gravity: Vector3", description: "Global gravity." },
        CoreMember { name: "sphereCast", kind: CompletionEntryKind::Method, signature: "sphereCast(origin: Vector3, radius: Float, direction: Vector3, maxDistance: Float): Bool", description: "Casts a sphere through the world." },
        CoreMember { name: "overlapSphere", kind: CompletionEntryKind::Method, signature: "overlapSphere(position: Vector3, radius: Float): Collider[]", description: "Returns colliders touching a sphere." },
    ];
    proof {
        assert(core_members_model(r@) =~= spec_physics_members());
    }
    r
}

/// The members of Mathf.
pub open spec fn spec_mathf_members() -> Seq<(Seq<char>, CompletionEntryKind, Seq<char>, Seq<char>)> {
    seq![
        ("abs"@, CompletionEntryKind::Method, "abs(value: Float): Float"@, "Absolute value."@),
        ("clamp"@, CompletionEntryKind::Method, "clamp(value: Float, min: Float, max: Float): Float"@, "Clamps a value."@),
        ("lerp"@, CompletionEntryKind::Method, "lerp(a: Float, b: Float, t: Float): Float"@, "Linear interpolation."@),
        ("min"@, CompletionEntryKind::Method, "min(a: Float, b: Float): Float"@, "Smaller of two values."@),
        ("max"@, CompletionEntryKind::Method, "max(a: Float, b: Float): Float"@, "Larger of two values."@),
        ("sin"@, CompletionEntryKind::Method, "sin(angle: Float): Float"@, "Sine of an angle in radians."@),
        ("cos"@, CompletionEntryKind::Method, "cos(angle: Float): Float"@, "Cosine of an angle in radians."@),
        ("smoothDamp"@, CompletionEntryKind::Method, "smoothDamp(current: Float, target: Float, velocity: Float, smoothTime: Float): Float"@, "Gradually changes a value toward a target."@),
        ("pi"@, CompletionEntryKind::Field, "pi: Float"@, "Pi constant."@),
    ]
}

/// The members of Mathf, in table order.
pub fn mathf_members() -> (r: Vec<CoreMember>)
    ensures
        core_members_model(r@) == spec_mathf_members(),
{
    let r = vec![
        CoreMember { name: "abs", kind: CompletionEntryKind::Method, signature: "abs(value: Float): Float", description: "Absolute value." },
        CoreMember { name: "clamp", kind: CompletionEntryKind::Method, signature: "clamp(value: Float, min: Float, max: Float): Float", description: "Clamps a value." },
        CoreMember { name: "lerp", kind: CompletionEntryKind::Method, signature: "lerp(a: Float, b: Float, t: Float): Float", description: "Linear interpolation." },
        CoreMember { name: "min", kind: CompletionEntryKind::Method, signature: "min(a: Float, b: Float): Float", description: "Smaller of two values." },
        CoreMember { name: "max", kind: CompletionEntryKind::Method, signature: "max(a: Float, b: Float): Float", description: "Larger of two values." },
        CoreMember { name: "sin", kind: CompletionEntryKind::Method, signature: "sin(angle: Float): Float", description: "Sine of an angle in radians." },
        CoreMember { name: "cos", kind: CompletionEntryKind::Method, signature: "cos(angle: Float): Float", description: "Cosine of an angle in radians." },
        CoreMember { name: "smoothDamp", kind: CompletionEntryKind::Method, signature: "smoothDamp(current: Float, target: Float, velocity: Float, smoothTime: Float): Float", description: "Gradually changes a value toward a target." },
        CoreMember { name: "pi", kind: CompletionEntryKind::Field, signature: "pi: Float", description: "Pi constant." },
    ];
    proof {
        assert(core_members_model(r@) =~= spec_mathf_members());
    }
    r
}

/// The members of Vector3.
pub open spec fn spec_vector3_members() -> Seq<(Seq<char>, CompletionEntryKind, Seq<char>, Seq<char>)> {
    seq![
        ("x"@, CompletionEntryKind::Field, "x: Float"@, "X component."@),
        ("y"@, CompletionEntryKind::Field, "y: Float"@, "Y component."@),
        ("z"@, CompletionEntryKind::Field, "z: Float"@, "Z component."@),
        ("magnitude"@, CompletionEntryKind::Property, "magnitude: Float"@, "Length."@),
        ("sqrMagnitude"@, CompletionEntryKind::Property, "sqrMagnitude: Float"@, "Squared length."@),
        ("normalized"@, CompletionEntryKind::Property, "normalized: Vector3"@, "Normalized vector."@),
        ("zero"@, CompletionEntryKind::Property, "zero: Vector3"@, "Zero vector."@),
        ("one"@, CompletionEntryKind::Property, "one: Vector3"@, "One vector."@),
        ("forward"@, CompletionEntryKind::Property, "forward: Vector3"@, "Forward vector."@),
        ("up"@, CompletionEntryKind::Property, "up: Vector3"@, "Up vector."@),
        ("right"@, CompletionEntryKind::Property, "right: Vector3"@, "Right vector."@),
        ("distance"@, CompletionEntryKind::Method, "distance(a: Vector3, b: Vector3): Float"@, "Distance between vectors."@),
        ("lerp"@, CompletionEntryKind::Method, "lerp(a: Vector3, b: Vector3, t: Float): Vector3"@, "Linear interpolation."@),
        ("dot"@, CompletionEntryKind::Method, "dot(a: Vector3, b: Vector3): Float"@, "Dot product."@),
        ("cross"@, CompletionEntryKind::Method, "cross(lhs: Vector3, rhs: Vector3): Vector3"@, "Cross product."@),
    ]
}

/// The members of Vector3, in table order.
pub fn vector3_members() -> (r: Vec<CoreMember>)
    ensures
        core_members_model(r@) == spec_vector3_members(),
{
    let r = vec![
        CoreMember { name: "x", kind: CompletionEntryKind::Field, signature: "x: Float", description: "X component." },
        CoreMember { name: "y", kind: CompletionEntryKind::Field, signature: "y: Float", description: "Y component." },
        CoreMember { name: "z", kind: CompletionEntryKind::Field, signature: "z: Float", description: "Z component." },
        CoreMember { name: "magnitude", kind: CompletionEntryKind::Property, signature: "magnitude: Float", description: "Length." },
        CoreMember { name: "sqrMagnitude", kind: CompletionEntryKind::Property, signature: "sqrMagnitude: Float", description: "Squared length." },
        CoreMember { name: "normalized", kind: CompletionEntryKind::Property, signature: "normalized: Vector3", description: "Normalized vector." },
        CoreMember { name: "zero", kind: CompletionEntryKind::Property, signature: "zero: Vector3", description: "Zero vector." },
        CoreMember { name: "one", kind: CompletionEntryKind::Property, signature: "one: Vector3", description: "One vector." },
        CoreMember { name: "forward", kind: CompletionEntryKind::Property, signature: "forward: Vector3", description: "Forward vector." },
        CoreMember { name: "up", kind: CompletionEntryKind::Property, signature: "up: Vector3", description: "Up vector." },
        CoreMember { name: "right", kind: CompletionEntryKind::Property, signature: "right: Vector3", description: "Right vector." },
        CoreMember { name: "distance", kind: CompletionEntryKind::Method, signature: "distance(a: Vector3, b: Vector3): Float", description: "Distance between vectors." },
        CoreMember { name: "lerp", kind: CompletionEntryKind::Method, signature: "lerp(a: Vector3, b: Vector3, t: Float): Vector3", description: "Linear interpolation." },
        CoreMember { name: "dot", kind: CompletionEntryKind::Method, signature: "dot(a: Vector3, b: Vector3): Float", description: "Dot product." },
        CoreMember { name: "cross", kind: CompletionEntryKind::Method, signature: "cross(lhs: Vector3, rhs: Vector3): Vector3", description: "Cross product." },
    ];
    proof {
        assert(core_members_model(r@) =~= spec_vector3_members());
    }
    r
}

/// The members of Vector2.
pub open spec fn spec_vector2_members() -> Seq<(Seq<char>, CompletionEntryKind, Seq<char>, Seq<char>)> {
    seq![
        ("x"@, CompletionEntryKind::Field, "x: Float"@, "X component."@),
        ("y"@, CompletionEntryKind::Field, "y: Float"@, "Y component."@),
        ("magnitude"@, CompletionEntryKind::Property, "magnitude: Float"@, "Length."@),
        ("normalized"@, CompletionEntryKind::Property, "normalized: Vector2"@, "Normalized vector."@),
        ("zero"@, CompletionEntryKind::Property, "zero: Vector2"@, "Zero vector."@),
        ("one"@, CompletionEntryKind::Property, "one: Vector2"@, "One vector."@),
        ("distance"@, CompletionEntryKind::Method, "distance(a: Vector2, b: Vector2): Float"@, "Distance between vectors."@),
        ("lerp"@, CompletionEntryKind::Method, "lerp(a: Vector2, b: Vector2, t: Float): Vector2"@, "Linear interpolation."@),
    ]
}

/// The members of Vector2, in table order.
pub fn vector2_members() -> (r: Vec<CoreMember>)
    ensures
        core_members_model(r@) == spec_vector2_members(),
{
    let r = vec![
        CoreMember { name: "x", kind: CompletionEntryKind::Field, signature: "x: Float", description: "X component." },
        CoreMember { name: "y", kind: CompletionEntryKind::Field, signature: "y: Float", description: "Y component." },
        CoreMember { name: "magnitude", kind: CompletionEntryKind::Property, signature: "magnitude: Float", description: "Length." },
        CoreMember { name: "normalized", kind: CompletionEntryKind::Property, signature: "normalized: Vector2", description: "Normalized vector." },
        CoreMember { name: "zero", kind: CompletionEntryKind::Property, signature: "zero: Vector2", description: "Zero vector." },
        CoreMember { name: "one", kind: CompletionEntryKind::Property, signature: "one: Vector2", description: "One vector." },
        CoreMember { name: "distance", kind: CompletionEntryKind::Method, signature: "distance(a: Vector2, b: Vector2): Float", description: "Distance between vectors." },
        CoreMember { name: "lerp", kind: CompletionEntryKind::Method, signature: "lerp(a: Vector2, b: Vector2, t: Float): Vector2", description: "Linear interpolation." },
    ];
    proof {
        assert(core_members_model(r@) =~= spec_vector2_members());
    }
    r
}

/// The members of Color.
pub open spec fn spec_color_members() -> Seq<(Seq<char>, CompletionEntryKind, Seq<char>, Seq<char>)> {
    seq![
        ("r"@, CompletionEntryKind::Field, "r: Float"@, "Red."@),
        ("g"@, CompletionEntryKind::Field, "g: Float"@, "Green."@),
        ("b"@, CompletionEntryKind::Field, "b: Float"@, "Blue."@),
        ("a"@, CompletionEntryKind::Field, "a: Float"@, "Alpha."@),
        ("white"@, CompletionEntryKind::Property, "white: Color"@, "White color constant."@),
        ("black"@, CompletionEntryKind::Property, "black: Color"@, "Black color constant."@),
        ("red"@, CompletionEntryKind::Property, "red: Color"@, "Red color constant."@),
        ("green"@, CompletionEntryKind::Property, "green: Color"@, "Green color constant."@),
        ("blue"@, CompletionEntryKind::Property, "blue: Color"@, "Blue color constant."@),
    ]
}

/// The members of Color, in table order.
pub fn color_members() -> (r: Vec<CoreMember>)
    ensures
        core_members_model(r@) == spec_color_members(),
{
    let r = vec![
        CoreMember { name: "r", kind: CompletionEntryKind::Field, signature: "r: Float", description: "Red." },
        CoreMember { name: "g", kind: CompletionEntryKind::Field, signature: "g: Float", description: "Green." },
        CoreMember { name: "b", kind: CompletionEntryKind::Field, signature: "b: Float", description: "Blue." },
        CoreMember { name: "a", kind: CompletionEntryKind::Field, signature: "a: Float", description: "Alpha." },
        CoreMember { name: "white", kind: CompletionEntryKind::Property, signature: "white: Color", description: "White color constant." },
        CoreMember { name: "black", kind: CompletionEntryKind::Property, signature: "black: Color", description: "Black color constant." },
        CoreMember { name: "red", kind: CompletionEntryKind::Property, signature: "red: Color", description: "Red color constant." },
        CoreMember { name: "green", kind: CompletionEntryKind::Property, signature: "green: Color", description: "Green color constant." },
        CoreMember { name: "blue", kind: CompletionEntryKind::Property, signature: "blue: Color", description: "Blue color constant." },
    ];
    proof {
        assert(core_members_model(r@) =~= spec_color_members());
    }
    r
}

/// The members of Quaternion.
pub open spec fn spec_quaternion_members() -> Seq<(Seq<char>, CompletionEntryKind, Seq<char>, Seq<char>)> {
    seq![
        ("x"@, CompletionEntryKind::Field, "x: Float"@, "X component."@),
        ("y"@, CompletionEntryKind::Field, "y: Float"@, "Y component."@),
        ("z"@, CompletionEntryKind::Field, "z: Float"@, "Z component."@),
        ("w"@, CompletionEntryKind::Field, "w: Float"@, "W component."@),
        ("identity"@, CompletionEntryKind::Property, "identity: Quaternion"@, "Identity rotation."@),
        ("euler"@, CompletionEntryKind::Method, "euler(eulerAngles: Vector3): Quaternion"@, "Creates a rotation from Euler angles."@),
        ("slerp"@, CompletionEntryKind::Method, "slerp(a: Quaternion, b: Quaternion, t: Float): Quaternion"@, "Spherically interpolates between rotations."@),
    ]
}

/// The members of Quaternion, in table order.
pub fn quaternion_members() -> (r: Vec<CoreMember>)
    ensures
        core_members_model(r@) == spec_quaternion_members(),
{
    let r = vec![
        CoreMember { name: "x", kind: CompletionEntryKind::Field, signature: "x: Float", description: "X component." },
        CoreMember { name: "y", kind: CompletionEntryKind::Field, signature: "y: Float", description: "Y component." },
        CoreMember { name: "z", kind: CompletionEntryKind::Field, signature: "z: Float", description: "Z component." },
        CoreMember { name: "w", kind: CompletionEntryKind::Field, signature: "w: Float", description: "W component." },
        CoreMember { name: "identity", kind: CompletionEntryKind::Property, signature: "identity: Quaternion", description: "Identity rotation." },
        CoreMember { name: "euler", kind: CompletionEntryKind::Method, signature: "euler(eulerAngles: Vector3): Quaternion", description: "Creates a rotation from Euler angles." },
        CoreMember { name: "slerp", kind: CompletionEntryKind::Method, signature: "slerp(a: Quaternion, b: Quaternion, t: Float): Quaternion", description: "Spherically interpolates between rotations." },
    ];
    proof {
        assert(core_members_model(r@) =~= spec_quaternion_members());
    }
    r
}

/// The members of String.
pub open spec fn spec_string_members() -> Seq<(Seq<char>, CompletionEntryKind, Seq<char>, Seq<char>)> {
    seq![
        ("length"@, CompletionEntryKind::Property, "length: Int"@, "Character count."@),
        ("contains"@, CompletionEntryKind::Method, "contains(value: String): Bool"@, "Contains substring."@),
        ("startsWith"@, CompletionEntryKind::Method, "startsWith(value: String): Bool"@, "Starts with substring."@),
        ("endsWith"@, CompletionEntryKind::Method, "endsWith(value: String): Bool"@, "Ends with substring."@),
        ("substring"@, CompletionEntryKind::Method, "substring(startIndex: Int, length: Int): String"@, "Extracts a substring."@),
        ("replace"@, CompletionEntryKind::Method, "replace(oldValue: String, newValue: String): String"@, "Replaces occurrences."@),
        ("trim"@, CompletionEntryKind::Method, "trim(): String"@, "Trims whitespace."@),
        ("toUpper"@, CompletionEntryKind::Method, "toUpper(): String"@, "Converts to uppercase."@),
        ("toLower"@, CompletionEntryKind::Method, "toLower(): String"@, "Converts to lowercase."@),
        ("toInt"@, CompletionEntryKind::Method, "toInt(): Int"@, "Parses as Int."@),
        ("toFloat"@, CompletionEntryKind::Method, "toFloat(): Float"@, "Parses as Float."@),
    ]
}

/// The members of String, in table order.
pub fn string_members() -> (r: Vec<CoreMember>)
    ensures
        core_members_model(r@) == spec_string_members(),
{
    let r = vec![
        CoreMember { name: "length", kind: CompletionEntryKind::Property, signature: "length: Int", description: "Character count." },
        CoreMember { name: "contains", kind: CompletionEntryKind::Method, signature: "contains(value: String): Bool", description: "Contains substring." },
        CoreMember { name: "startsWith", kind: CompletionEntryKind::Method, signature: "startsWith(value: String): Bool", description: "Starts with substring." },
        CoreMember { name: "endsWith", kind: CompletionEntryKind::Method, signature: "endsWith(value: String): Bool", description: "Ends with substring." },
        CoreMember { name: "substring", kind: CompletionEntryKind::Method, signature: "substring(startIndex: Int, length: Int): String", description: "Extracts a substring." },
        CoreMember { name: "replace", kind: CompletionEntryKind::Method, signature: "replace(oldValue: String, newValue: String): String", description: "Replaces occurrences." },
        CoreMember { name: "trim", kind: CompletionEntryKind::Method, signature: "trim(): String", description: "Trims whitespace." },
        CoreMember { name: "toUpper", kind: CompletionEntryKind::Method, signature: "toUpper(): String", description: "Converts to uppercase." },
        CoreMember { name: "toLower", kind: CompletionEntryKind::Method, signature: "toLower(): String", description: "Converts to lowercase." },
        CoreMember { name: "toInt", kind: CompletionEntryKind::Method, signature: "toInt(): Int", description: "Parses as Int." },
        CoreMember { name: "toFloat", kind: CompletionEntryKind::Method, signature: "toFloat(): Float", description: "Parses as Float." },
    ];
    proof {
        assert(core_members_model(r@) =~= spec_string_members());
    }
    r
}

/// The members of Int.
pub open spec fn spec_int_members() -> Seq<(Seq<char>, CompletionEntryKind, Seq<char>, Seq<char>)> {
    seq![
        ("toString"@, CompletionEntryKind::Method, "toString(): String"@, "Converts to string."@),
        ("toFloat"@, CompletionEntryKind::Method, "toFloat(): Float"@, "Converts to Float."@),
        ("toDouble"@, CompletionEntryKind::Method, "toDouble(): Double"@, "Converts to Double."@),
        ("abs"@, CompletionEntryKind::Method, "abs(): Int"@, "Absolute value."@),
        ("maxValue"@, CompletionEntryKind::Field, "maxValue: Int"@, "Maximum value."@),
    ]
}

/// The members of Int, in table order.
pub fn int_members() -> (r: Vec<CoreMember>)
    ensures
        core_members_model(r@) == spec_int_members(),
{
    let r = vec![
        CoreMember { name: "toString", kind: CompletionEntryKind::Method, signature: "toString(): String", description: "Converts to string." },
        CoreMember { name: "toFloat", kind: CompletionEntryKind::Method, signature: "toFloat(): Float", description: "Converts to Float." },
        CoreMember { name: "toDouble", kind: CompletionEntryKind::Method, signature: "toDouble(): Double", description: "Converts to Double." },
        CoreMember { name: "abs", kind: CompletionEntryKind::Method, signature: "abs(): Int", description: "Absolute value." },
        CoreMember { name: "maxValue", kind: CompletionEntryKind::Field, signature: "maxValue: Int", description: "Maximum value." },
    ];
    proof {
        assert(core_members_model(r@) =~= spec_int_members());
    }
    r
}

/// The members of Float.
pub open spec fn spec_float_members() -> Seq<(Seq<char>, CompletionEntryKind, Seq<char>, Seq<char>)> {
    seq![
        ("toString"@, CompletionEntryKind::Method, "toString(): String"@, "Converts to string."@),
        ("toInt"@, CompletionEntryKind::Method, "toInt(): Int"@, "Converts to Int."@),
        ("toDouble"@, CompletionEntryKind::Method, "toDouble(): Double"@, "Converts to Double."@),
        ("isNaN"@, CompletionEntryKind::Method, "isNaN(): Bool"@, "Checks NaN."@),
        ("maxValue"@, CompletionEntryKind::Field, "maxValue: Float"@, "Maximum value."@),
    ]
}

/// The members of Float, in table order.
pub fn float_members() -> (r: Vec<CoreMember>)
    ensures
        core_members_model(r@) == spec_float_members(),
{
    let r = vec![
        CoreMember { name: "toString", kind: CompletionEntryKind::Method, signature: "toString(): String", description: "Converts to string." },
        CoreMember { name: "toInt", kind: CompletionEntryKind::Method, signature: "toInt(): Int", description: "Converts to Int." },
        CoreMember { name: "toDouble", kind: CompletionEntryKind::Method, signature: "toDouble(): Double", description: "Converts to Double." },
        CoreMember { name: "isNaN", kind: CompletionEntryKind::Method, signature: "isNaN(): Bool", description: "Checks NaN." },
        CoreMember { name: "maxValue", kind: CompletionEntryKind::Field, signature: "maxValue: Float", description: "Maximum value." },
    ];
    proof {
        assert(core_members_model(r@) =~= spec_float_members());
    }
    r
}

/// The members of Double.
pub open spec fn spec_double_members() -> Seq<(Seq<char>, CompletionEntryKind, Seq<char>, Seq<char>)> {
    seq![
        ("toString"@, CompletionEntryKind::Method, "toString(): String"@, "Converts to string."@),
        ("toInt"@, CompletionEntryKind::Method, "toInt(): Int"@, "Converts to Int."@),
        ("toFloat"@, CompletionEntryKind::Method, "toFloat(): Float"@, "Converts to Float."@),
        ("maxValue"@, CompletionEntryKind::Field, "maxValue: Double"@, "Maximum value."@),
    ]
}

/// The members of Double, in table order.
pub fn double_members() -> (r: Vec<CoreMember>)
    ensures
        core_members_model(r@) == spec_double_members(),
{
    let r = vec![
        CoreMember { name: "toString", kind: CompletionEntryKind::Method, signature: "toString(): String", description: "Converts to string." },
        CoreMember { name: "toInt", kind: CompletionEntryKind::Method, signature: "toInt(): Int", description: "Converts to Int." },
        CoreMember { name: "toFloat", kind: CompletionEntryKind::Method, signature: "toFloat(): Float", description: "Converts to Float." },
        CoreMember { name: "maxValue", kind: CompletionEntryKind::Field, signature: "maxValue: Double", description: "Maximum value." },
    ];
    proof {
        assert(core_members_model(r@) =~= spec_double_members());
    }
    r
}

/// The members of Bool.
pub open spec fn spec_bool_members() -> Seq<(Seq<char>, CompletionEntryKind, Seq<char>, Seq<char>)> {
    seq![
        ("toString"@, CompletionEntryKind::Method, "toString(): String"@, "Converts to string."@),
        ("trueString"@, CompletionEntryKind::Field, "trueString: String"@, "True literal string."@),
        ("falseString"@, CompletionEntryKind::Field, "falseString: String"@, "False literal string."@),
    ]
}

/// The members of Bool, in table order.
pub fn bool_members() -> (r: Vec<CoreMember>)
    ensures
        core_members_model(r@) == spec_bool_members(),
{
    let r = vec![
        CoreMember { name: "toString", kind: CompletionEntryKind::Method, signature: "toString(): String", description: "Converts to string." },
        CoreMember { name: "trueString", kind: CompletionEntryKind::Field, signature: "trueString: String", description: "True literal string." },
        CoreMember { name: "falseString", kind: CompletionEntryKind::Field, signature: "falseString: String", description: "False literal string." },
    ];
    proof {
        assert(core_members_model(r@) =~= spec_bool_members());
    }
    r
}

/// The members of Long.
pub open spec fn spec_long_members() -> Seq<(Seq<char>, CompletionEntryKind, Seq<char>, Seq<char>)> {
    seq![
        ("toString"@, CompletionEntryKind::Method, "toString(): String"@, "Converts to string."@),
        ("toInt"@, CompletionEntryKind::Method, "toInt(): Int"@, "Converts to Int."@),
        ("maxValue"@, CompletionEntryKind::Field, "maxValue: Long"@, "Maximum value."@),
    ]
}

/// The members of Long, in table order.
pub fn long_members() -> (r: Vec<CoreMember>)
    ensures
        core_members_model(r@) == spec_long_members(),
{
    let r = vec![
        CoreMember { name: "toString", kind: CompletionEntryKind::Method, signature: "toString(): String", description: "Converts to string." },
        CoreMember { name: "toInt", kind: CompletionEntryKind::Method, signature: "toInt(): Int", description: "Converts to Int." },
        CoreMember { name: "maxValue", kind: CompletionEntryKind::Field, signature: "maxValue: Long", description: "Maximum value." },
    ];
    proof {
        assert(core_members_model(r@) =~= spec_long_members());
    }
    r
}

/// The members of Byte.
pub open spec fn spec_byte_members() -> Seq<(Seq<char>, CompletionEntryKind, Seq<char>, Seq<char>)> {
    seq![
        ("toString"@, CompletionEntryKind::Method, "toString(): String"@, "Converts to string."@),
        ("toInt"@, CompletionEntryKind::Method, "toInt(): Int"@, "Converts to Int."@),
        ("maxValue"@, CompletionEntryKind::Field, "maxValue: Byte"@, "Maximum value."@),
    ]
}

/// The members of Byte, in table order.
pub fn byte_members() -> (r: Vec<CoreMember>)
    ensures
        core_members_model(r@) == spec_byte_members(),
{
    let r = vec![
        CoreMember { name: "toString", kind: CompletionEntryKind::Method, signature: "toString(): String", description: "Converts to string." },
        CoreMember { name: "toInt", kind: CompletionEntryKind::Method, signature: "toInt(): Int", description: "Converts to Int." },
        CoreMember { name: "maxValue", kind: CompletionEntryKind::Field, signature: "maxValue: Byte", description: "Maximum value." },
    ];
    proof {
        assert(core_members_model(r@) =~= spec_byte_members());
    }
    r
}

/// The members of Application.
pub open spec fn spec_application_members() -> Seq<(Seq<char>, CompletionEntryKind, Seq<char>, Seq<char>)> {
    seq![
        ("quit"@, CompletionEntryKind::Method, "quit(): Unit"@, "Quits the application."@),
        ("isPlaying"@, CompletionEntryKind::Property, "isPlaying: Bool"@, "Whether the player is running."@),
        ("targetFrameRate"@, CompletionEntryKind::Property, "targetFrameRate: Int"@, "Target frame rate."@),
        ("persistentDataPath"@, CompletionEntryKind::Property, "persistentDataPath: String"@, "Persistent data directory."@),
        ("version"@, CompletionEntryKind::Property, "version: String"@, "Application version string."@),
    ]
}

/// The members of Application, in table order.
pub fn application_members() -> (r: Vec<CoreMember>)
    ensures
        core_members_model(r@) == spec_application_members(),
{
    let r = vec![
        CoreMember { name: "quit", kind: CompletionEntryKind::Method, signature: "quit(): Unit", description: "Quits the application." },
        CoreMember { name: "isPlaying", kind: CompletionEntryKind::Property, signature: "isPlaying: Bool", description: "Whether the player is running." },
        CoreMember { name: "targetFrameRate", kind: CompletionEntryKind::Property, signature: "targetFrameRate: Int", description: "Target frame rate." },
        CoreMember { name: "persistentDataPath", kind: CompletionEntryKind::Property, signature: "persistentDataPath: String", description: "Persistent data directory." },
        CoreMember { name: "version", kind: CompletionEntryKind::Property, signature: "version: String", description: "Application version string." },
    ];
    proof {
        assert(core_members_model(r@) =~= spec_application_members());
    }
    r
}

/// The members of Scene Manager.
pub open spec fn spec_scene_manager_members() -> Seq<(Seq<char>, CompletionEntryKind, Seq<char>, Seq<char>)> {
    seq![
        ("loadScene"@, CompletionEntryKind::Method, "loadScene(sceneName: String): Unit"@, "Loads a scene."@),
        ("loadSceneAsync"@, CompletionEntryKind::Method, "loadSceneAsync(sceneName: String): AsyncOperation"@, "Loads a scene asynchronously."@),
        ("getActiveScene"@, CompletionEntryKind::Method, "getActiveScene(): Scene"@, "Gets the active scene."@),
        ("activeScene"@, CompletionEntryKind::Property, "activeScene: Scene"@, "Currently active scene."@),
    ]
}

/// The members of Scene Manager, in table order.
pub fn scene_manager_members() -> (r: Vec<CoreMember>)
    ensures
        core_members_model(r@) == spec_scene_manager_members(),
{
    let r = vec![
        CoreMember { name: "loadScene", kind: CompletionEntryKind::Method, signature: "loadScene(sceneName: String): Unit", description: "Loads a scene." },
        CoreMember { name: "loadSceneAsync", kind: CompletionEntryKind::Method, signature: "loadSceneAsync(sceneName: String): AsyncOperation", description: "Loads a scene asynchronously." },
        CoreMember { name: "getActiveScene", kind: CompletionEntryKind::Method, signature: "getActiveScene(): Scene", description: "Gets the active scene." },
        CoreMember { name: "activeScene", kind: CompletionEntryKind::Property, signature: "activeScene: Scene", description: "Currently active scene." },
    ];
    proof {
        assert(core_members_model(r@) =~= spec_scene_manager_members());
    }
    r
}

/// The members of Camera.
pub open spec fn spec_camera_members() -> Seq<(Seq<char>, CompletionEntryKind, Seq<char>, Seq<char>)> {
    seq![
        ("main"@, CompletionEntryKind::Property, "main: Camera"@, "The first enabled camera tagged MainCamera."@),
        ("fieldOfView"@, CompletionEntryKind::Property, "fieldOfView: Float"@, "Vertical field of view."@),
        ("backgroundColor"@, CompletionEntryKind::Property, "backgroundColor: Color"@, "Clear color used by the camera."@),
        ("nearClipPlane"@, CompletionEntryKind::Property, "nearClipPlane: Float"@, "Near clipping plane distance."@),
        ("farClipPlane"@, CompletionEntryKind::Property, "farClipPlane: Float"@, "Far clipping plane distance."@),
        ("orthographic"@, CompletionEntryKind::Property, "orthographic: Bool"@, "Whether the camera uses orthographic projection."@),
        ("screenToWorldPoint"@, CompletionEntryKind::Method, "screenToWorldPoint(position: Vector3): Vector3"@, "Transforms screen coordinates to world space."@),
        ("worldToScreenPoint"@, CompletionEntryKind::Method, "worldToScreenPoint(position: Vector3): Vector3"@, "Transforms world coordinates to screen space."@),
        ("viewportToWorldPoint"@, CompletionEntryKind::Method, "viewportToWorldPoint(position: Vector3): Vector3"@, "Transforms viewport coordinates to world space."@),
        ("render"@, CompletionEntryKind::Method, "render(): Unit"@, "Renders the camera immediately."@),
    ]
}

/// The members of Camera, in table order.
pub fn camera_members() -> (r: Vec<CoreMember>)
    ensures
        core_members_model(r@) == spec_camera_members(),
{
    let r = vec![
        CoreMember { name: "main", kind: CompletionEntryKind::Property, signature: "main: Camera", description: "The first enabled camera tagged MainCamera." },
        CoreMember { name: "fieldOfView", kind: CompletionEntryKind::Property, signature: "fieldOfView: Float", description: "Vertical field of view." },
        CoreMember { name: "backgroundColor", kind: CompletionEntryKind::Property, signature: "backgroundColor: Color", description: "Clear color used by the camera." },
        CoreMember { name: "nearClipPlane", kind: CompletionEntryKind::Property, signature: "nearClipPlane: Float", description: "Near clipping plane distance." },
        CoreMember { name: "farClipPlane", kind: CompletionEntryKind::Property, signature: "farClipPlane: Float", description: "Far clipping plane distance." },
        CoreMember { name: "orthographic", kind: CompletionEntryKind::Property, signature: "orthographic: Bool", description: "Whether the camera uses orthographic projection." },
        CoreMember { name: "screenToWorldPoint", kind: CompletionEntryKind::Method, signature: "screenToWorldPoint(position: Vector3): Vector3", description: "Transforms screen coordinates to world space." },
        CoreMember { name: "worldToScreenPoint", kind: CompletionEntryKind::Method, signature: "worldToScreenPoint(position: Vector3): Vector3", description: "Transforms world coordinates to screen space." },
        CoreMember { name: "viewportToWorldPoint", kind: CompletionEntryKind::Method, signature: "viewportToWorldPoint(position: Vector3): Vector3", description: "Transforms viewport coordinates to world space." },
        CoreMember { name: "render", kind: CompletionEntryKind::Method, signature: "render(): Unit", description: "Renders the camera immediately." },
    ];
    proof {
        assert(core_members_model(r@) =~= spec_camera_members());
    }
    r
}

/// The members of Audio Source.
pub open spec fn spec_audio_source_members() -> Seq<(Seq<char>, CompletionEntryKind, Seq<char>, Seq<char>)> {
    seq![
        ("clip"@, CompletionEntryKind::Property, "clip: AudioClip"@, "Assigned audio clip."@),
        ("volume"@, CompletionEntryKind::Property, "volume: Float"@, "Playback volume."@),
        ("pitch"@, CompletionEntryKind::Property, "pitch: Float"@, "Playback pitch."@),
        ("loop"@, CompletionEntryKind::Property, "loop: Bool"@, "Whether the clip loops."@),
        ("mute"@, CompletionEntryKind::Property, "mute: Bool"@, "Whether the source is muted."@),
        ("play"@, CompletionEntryKind::Method, "play(): Unit"@, "Starts playback."@),
        ("playOneShot"@, CompletionEntryKind::Method, "playOneShot(clip: AudioClip): Unit"@, "Plays a clip once without interrupting the current clip."@),
        ("pause"@, CompletionEntryKind::Method, "pause(): Unit"@, "Pauses playback."@),
        ("stop"@, CompletionEntryKind::Method, "stop(): Unit"@, "Stops playback."@),
    ]
}

/// The members of Audio Source, in table order.
pub fn audio_source_members() -> (r: Vec<CoreMember>)
    ensures
        core_members_model(r@) == spec_audio_source_members(),
{
    let r = vec![
        CoreMember { name: "clip", kind: CompletionEntryKind::Property, signature: "clip: AudioClip", description: "Assigned audio clip." },
        CoreMember { name: "volume", kind: CompletionEntryKind::Property, signature: "volume: Float", description: "Playback volume." },
        CoreMember { name: "pitch", kind: CompletionEntryKind::Property, signature: "pitch: Float", description: "Playback pitch." },
        CoreMember { name: "loop", kind: CompletionEntryKind::Property, signature: "loop: Bool", description: "Whether the clip loops." },
        CoreMember { name: "mute", kind: CompletionEntryKind::Property, signature: "mute: Bool", description: "Whether the source is muted." },
        CoreMember { name: "play", kind: CompletionEntryKind::Method, signature: "play(): Unit", description: "Starts playback." },
        CoreMember { name: "playOneShot", kind: CompletionEntryKind::Method, signature: "playOneShot(clip: AudioClip): Unit", description: "Plays a clip once without interrupting the current clip." },
        CoreMember { name: "pause", kind: CompletionEntryKind::Method, signature: "pause(): Unit", description: "Pauses playback." },
        CoreMember { name: "stop", kind: CompletionEntryKind::Method, signature: "stop(): Unit", description: "Stops playback." },
    ];
    proof {
        assert(core_members_model(r@) =~= spec_audio_source_members());
    }
    r
}

/// The members of Sprite Renderer.
pub open spec fn spec_sprite_renderer_members() -> Seq<(Seq<char>, CompletionEntryKind, Seq<char>, Seq<char>)> {
    seq![
        ("sprite"@, CompletionEntryKind::Property, "sprite: Sprite"@, "Rendered sprite asset."@),
        ("color"@, CompletionEntryKind::Property, "color: Color"@, "Tint color."@),
        ("flipX"@, CompletionEntryKind::Property, "flipX: Bool"@, "Whether the sprite is flipped on X."@),
        ("flipY"@, CompletionEntryKind::Property, "flipY: Bool"@, "Whether the sprite is flipped on Y."@),
        ("size"@, CompletionEntryKind::Property, "size: Vector2"@, "Draw size when using tiled or sliced mode."@),
        ("sortingOrder"@, CompletionEntryKind::Property, "sortingOrder: Int"@, "Renderer sorting order."@),
    ]
}

/// The members of Sprite Renderer, in table order.
pub fn sprite_renderer_members() -> (r: Vec<CoreMember>)
    ensures
        core_members_model(r@) == spec_sprite_renderer_members(),
{
    let r = vec![
        CoreMember { name: "sprite", kind: CompletionEntryKind::Property, signature: "sprite: Sprite", description: "Rendered sprite asset." },
        CoreMember { name: "color", kind: CompletionEntryKind::Property, signature: "color: Color", description: "Tint color." },
        CoreMember { name: "flipX", kind: CompletionEntryKind::Property, signature: "flipX: Bool", description: "Whether the sprite is flipped on X." },
        CoreMember { name: "flipY", kind: CompletionEntryKind::Property, signature: "flipY: Bool", description: "Whether the sprite is flipped on Y." },
        CoreMember { name: "size", kind: CompletionEntryKind::Property, signature: "size: Vector2", description: "Draw size when using tiled or sliced mode." },
        CoreMember { name: "sortingOrder", kind: CompletionEntryKind::Property, signature: "sortingOrder: Int", description: "Renderer sorting order." },
    ];
    proof {
        assert(core_members_model(r@) =~= spec_sprite_renderer_members());
    }
    r
}

/// The members of Screen.
pub open spec fn spec_screen_members() -> Seq<(Seq<char>, CompletionEntryKind, Seq<char>, Seq<char>)> {
    seq![
        ("width"@, CompletionEntryKind::Property, "width: Int"@, "Current screen width in pixels."@),
        ("height"@, CompletionEntryKind::Property, "height: Int"@, "Current screen height in pixels."@),
        ("dpi"@, CompletionEntryKind::Property, "dpi: Float"@, "Approximate screen DPI."@),
        ("orientation"@, CompletionEntryKind::Property, "orientation: ScreenOrientation"@, "Current screen orientation."@),
        ("fullScreen"@, CompletionEntryKind::Property, "fullScreen: Bool"@, "Whether the app runs fullscreen."@),
        ("setResolution"@, CompletionEntryKind::Method, "setResolution(width: Int, height: Int, fullScreen: Bool): Unit"@, "Changes the screen resolution."@),
    ]
}

/// The members of Screen, in table order.
pub fn screen_members() -> (r: Vec<CoreMember>)
    ensures
        core_members_model(r@) == spec_screen_members(),
{
    let r = vec![
        CoreMember { name: "width", kind: CompletionEntryKind::Property, signature: "width: Int", description: "Current screen width in pixels." },
        CoreMember { name: "height", kind: CompletionEntryKind::Property, signature: "height: Int", description: "Current screen height in pixels." },
        CoreMember { name: "dpi", kind: CompletionEntryKind::Property, signature: "dpi: Float", description: "Approximate screen DPI." },
        CoreMember { name: "orientation", kind: CompletionEntryKind::Property, signature: "orientation: ScreenOrientation", description: "Current screen orientation." },
        CoreMember { name: "fullScreen", kind: CompletionEntryKind::Property, signature: "fullScreen: Bool", description: "Whether the app runs fullscreen." },
        CoreMember { name: "setResolution", kind: CompletionEntryKind::Method, signature: "setResolution(width: Int, height: Int, fullScreen: Bool): Unit", description: "Changes the screen resolution." },
    ];
    proof {
        assert(core_members_model(r@) =~= spec_screen_members());
    }
    r
}

/// The members of Cursor.
pub open spec fn spec_cursor_members() -> Seq<(Seq<char>, CompletionEntryKind, Seq<char>, Seq<char>)> {
    seq![
        ("visible"@, CompletionEntryKind::Property, "visible: Bool"@, "Whether the hardware cursor is visible."@),
        ("lockState"@, CompletionEntryKind::Property, "lockState: CursorLockMode"@, "Current cursor lock state."@),
        ("setCursor"@, CompletionEntryKind::Method, "setCursor(texture: Texture2D, hotspot: Vector2): Unit"@, "Sets a custom cursor texture."@),
    ]
}

/// The members of Cursor, in table order.
pub fn cursor_members() -> (r: Vec<CoreMember>)
    ensures
        core_members_model(r@) == spec_cursor_members(),
{
    let r = vec![
        CoreMember { name: "visible", kind: CompletionEntryKind::Property, signature: "visible: Bool", description: "Whether the hardware cursor is visible." },
        CoreMember { name: "lockState", kind: CompletionEntryKind::Property, signature: "lockState: CursorLockMode", description: "Current cursor lock state." },
        CoreMember { name: "setCursor", kind: CompletionEntryKind::Method, signature: "setCursor(texture: Texture2D, hotspot: Vector2): Unit", description: "Sets a custom cursor texture." },
    ];
    proof {
        assert(core_members_model(r@) =~= spec_cursor_members());
    }
    r
}

/// The members of Resources.
pub open spec fn spec_resources_members() -> Seq<(Seq<char>, CompletionEntryKind, Seq<char>, Seq<char>)> {
    seq![
        ("load"@, CompletionEntryKind::Method, "load<T>(path: String): T"@, "Loads an asset from a Resources folder."@),
        ("loadAll"@, CompletionEntryKind::Method, "loadAll<T>(path: String): T[]"@, "Loads all assets from a Resources path."@),
        ("unloadAsset"@, CompletionEntryKind::Method, "unloadAsset(asset: Object): Unit"@, "Unloads an asset from memory."@),
    ]
}

/// The members of Resources, in table order.
pub fn resources_members() -> (r: Vec<CoreMember>)
    ensures
        core_members_model(r@) == spec_resources_members(),
{
    let r = vec![
        CoreMember { name: "load", kind: CompletionEntryKind::Method, signature: "load<T>(path: String): T", description: "Loads an asset from a Resources folder." },
        CoreMember { name: "loadAll", kind: CompletionEntryKind::Method, signature: "loadAll<T>(path: String): T[]", description: "Loads all assets from a Resources path." },
        CoreMember { name: "unloadAsset", kind: CompletionEntryKind::Method, signature: "unloadAsset(asset: Object): Unit", description: "Unloads an asset from memory." },
    ];
    proof {
        assert(core_members_model(r@) =~= spec_resources_members());
    }
    r
}

/// The members of Player Prefs.
pub open spec fn spec_player_prefs_members() -> Seq<(Seq<char>, CompletionEntryKind, Seq<char>, Seq<char>)> {
    seq![
        ("setInt"@, CompletionEntryKind::Method, "setInt(key: String, value: Int): Unit"@, "Stores an integer preference."@),
        ("getInt"@, CompletionEntryKind::Method, "getInt(key: String): Int"@, "Reads an integer preference."@),
        ("setFloat"@, CompletionEntryKind::Method, "setFloat(key: String, value: Float): Unit"@, "Stores a float preference."@),
        ("getFloat"@, CompletionEntryKind::Method, "getFloat(key: String): Float"@, "Reads a float preference."@),
        ("setString"@, CompletionEntryKind::Method, "setString(key: String, value: String): Unit"@, "Stores a string preference."@),
        ("getString"@, CompletionEntryKind::Method, "getString(key: String): String"@, "Reads a string preference."@),
        ("hasKey"@, CompletionEntryKind::Method, "hasKey(key: String): Bool"@, "Checks whether a preference exists."@),
        ("deleteKey"@, CompletionEntryKind::Method, "deleteKey(key: String): Unit"@, "Deletes a stored preference."@),
        ("save"@, CompletionEntryKind::Method, "save(): Unit"@, "Writes modified preferences to disk."@),
    ]
}

/// The members of Player Prefs, in table order.
pub fn player_prefs_members() -> (r: Vec<CoreMember>)
    ensures
        core_members_model(r@) == spec_player_prefs_members(),
{
    let r = vec![
        CoreMember { name: "setInt", kind: CompletionEntryKind::Method, signature: "setInt(key: String, value: Int): Unit", description: "Stores an integer preference." },
        CoreMember { name: "getInt", kind: CompletionEntryKind::Method, signature: "getInt(key: String): Int", description: "Reads an integer preference." },
        CoreMember { name: "setFloat", kind: CompletionEntryKind::Method, signature: "setFloat(key: String, value: Float): Unit", description: "Stores a float preference." },
        CoreMember { name: "getFloat", kind: CompletionEntryKind::Method, signature: "getFloat(key: String): Float", description: "Reads a float preference." },
        CoreMember { name: "setString", kind: CompletionEntryKind::Method, signature: "setString(key: String, value: String): Unit", description: "Stores a string preference." },
        CoreMember { name: "getString", kind: CompletionEntryKind::Method, signature: "getString(key: String): String", description: "Reads a string preference." },
        CoreMember { name: "hasKey", kind: CompletionEntryKind::Method, signature: "hasKey(key: String): Bool", description: "Checks whether a preference exists." },
        CoreMember { name: "deleteKey", kind: CompletionEntryKind::Method, signature: "deleteKey(key: String): Unit", description: "Deletes a stored preference." },
        CoreMember { name: "save", kind: CompletionEntryKind::Method, signature: "save(): Unit", description: "Writes modified preferences to disk." },
    ];
    proof {
        assert(core_members_model(r@) =~= spec_player_prefs_members());
    }
    r
}

/// The members of Unity Event.
pub open spec fn spec_unity_event_members() -> Seq<(Seq<char>, CompletionEntryKind, Seq<char>, Seq<char>)> {
    seq![
        ("addListener"@, CompletionEntryKind::Method, "addListener(callback: Any): Unit"@, "Registers a listener callback."@),
        ("removeListener"@, CompletionEntryKind::Method, "removeListener(callback: Any): Unit"@, "Removes a listener callback."@),
        ("removeAllListeners"@, CompletionEntryKind::Method, "removeAllListeners(): Unit"@, "Clears every registered listener."@),
        ("invoke"@, CompletionEntryKind::Method, "invoke(): Unit"@, "Invokes all listeners."@),
    ]
}

/// The members of Unity Event, in table order.
pub fn unity_event_members() -> (r: Vec<CoreMember>)
    ensures
        core_members_model(r@) == spec_unity_event_members(),
{
    let r = vec![
        CoreMember { name: "addListener", kind: CompletionEntryKind::Method, signature: "addListener(callback: Any): Unit", description: "Registers a listener callback." },
        CoreMember { name: "removeListener", kind: CompletionEntryKind::Method, signature: "removeListener(callback: Any): Unit", description: "Removes a listener callback." },
        CoreMember { name: "removeAllListeners", kind: CompletionEntryKind::Method, signature: "removeAllListeners(): Unit", description: "Clears every registered listener." },
        CoreMember { name: "invoke", kind: CompletionEntryKind::Method, signature: "invoke(): Unit", description: "Invokes all listeners." },
    ];
    proof {
        assert(core_members_model(r@) =~= spec_unity_event_members());
    }
    r
}

/// The members of Button.
pub open spec fn spec_button_members() -> Seq<(Seq<char>, CompletionEntryKind, Seq<char>, Seq<char>)> {
    seq![
        ("onClick"@, CompletionEntryKind::Event, "onClick: UnityEvent"@, "Button click event."@),
        ("interactable"@, CompletionEntryKind::Property, "interactable: Bool"@, "Whether the button is interactable."@),
        ("enabled"@, CompletionEntryKind::Property, "enabled: Bool"@, "Whether the button component is enabled."@),
    ]
}

/// The members of Button, in table order.
pub fn button_members() -> (r: Vec<CoreMember>)
    ensures
        core_members_model(r@) == spec_button_members(),
{
    let r = vec![
        CoreMember { name: "onClick", kind: CompletionEntryKind::Event, signature: "onClick: UnityEvent", description: "Button click event." },
        CoreMember { name: "interactable", kind: CompletionEntryKind::Property, signature: "interactable: Bool", description: "Whether the button is interactable." },
        CoreMember { name: "enabled", kind: CompletionEntryKind::Property, signature: "enabled: Bool", description: "Whether the button component is enabled." },
    ];
    proof {
        assert(core_members_model(r@) =~= spec_button_members());
    }
    r
}

/// The members of Slider.
pub open spec fn spec_slider_members() -> Seq<(Seq<char>, CompletionEntryKind, Seq<char>, Seq<char>)> {
    seq![
        ("value"@, CompletionEntryKind::Property, "value: Float"@, "Current value."@),
        ("minValue"@, CompletionEntryKind::Property, "minValue: Float"@, "Minimum value."@),
        ("maxValue"@, CompletionEntryKind::Property, "maxValue: Float"@, "Maximum value."@),
        ("wholeNumbers"@, CompletionEntryKind::Property, "wholeNumbers: Bool"@, "Whether the slider rounds to whole numbers."@),
        ("onValueChanged"@, CompletionEntryKind::Event, "onValueChanged: UnityEvent"@, "Slider value changed event."@),
    ]
}

/// The members of Slider, in table order.
pub fn slider_members() -> (r: Vec<CoreMember>)
    ensures
        core_members_model(r@) == spec_slider_members(),
{
    let r = vec![
        CoreMember { name: "value", kind: CompletionEntryKind::Property, signature: "value: Float", description: "Current value." },
        CoreMember { name: "minValue", kind: CompletionEntryKind::Property, signature: "minValue: Float", description: "Minimum value." },
        CoreMember { name: "maxValue", kind: CompletionEntryKind::Property, signature: "maxValue: Float", description: "Maximum value." },
        CoreMember { name: "wholeNumbers", kind: CompletionEntryKind::Property, signature: "wholeNumbers: Bool", description: "Whether the slider rounds to whole numbers." },
        CoreMember { name: "onValueChanged", kind: CompletionEntryKind::Event, signature: "onValueChanged: UnityEvent", description: "Slider value changed event." },
    ];
    proof {
        assert(core_members_model(r@) =~= spec_slider_members());
    }
    r
}

/// The core types, in table order, as plain values.
#[verifier::opaque]
pub open spec fn spec_core_types() -> Seq<(Seq<char>, Seq<char>, CompletionEntryKind, Seq<char>, Seq<char>, Seq<(Seq<char>, CompletionEntryKind, Seq<char>, Seq<char>)>)> {
    seq![
        ("MonoBehaviour"@, "UnityEngine"@, CompletionEntryKind::Class, "Class"@, "Base class for Unity scripts."@, spec_mono_behaviour_members()),
        ("GameObject"@, "UnityEngine"@, CompletionEntryKind::Class, "Class"@, "Base class for all scene objects."@, spec_game_object_members()),
        ("Transform"@, "UnityEngine"@, CompletionEntryKind::Class, "Class"@, "Position, rotation, and scale of an object."@, spec_transform_members()),
        ("Rigidbody"@, "UnityEngine"@, CompletionEntryKind::Class, "Class"@, "Physics body for 3D objects."@, spec_rigidbody_members()),
        ("Animator"@, "UnityEngine"@, CompletionEntryKind::Class, "Class"@, "Controls animations."@, spec_animator_members()),
        ("Collider"@, "UnityEngine"@, CompletionEntryKind::Class, "Class"@, "Base collider type."@, spec_collider_members()),
        ("Collision"@, "UnityEngine"@, CompletionEntryKind::Class, "Class"@, "Collision event payload."@, spec_collision_members()),
        ("Camera"@, "UnityEngine"@, CompletionEntryKind::Class, "Class"@, "Scene camera and projection settings."@, spec_camera_members()),
        ("AudioSource"@, "UnityEngine"@, CompletionEntryKind::Class, "Class"@, "Audio playback component."@, spec_audio_source_members()),
        ("SpriteRenderer"@, "UnityEngine"@, CompletionEntryKind::Class, "Class"@, "2D sprite rendering component."@, spec_sprite_renderer_members()),
        ("Input"@, "UnityEngine"@, CompletionEntryKind::Class, "Static class"@, "Input system."@, spec_input_members()),
        ("Time"@, "UnityEngine"@, CompletionEntryKind::Class, "Static class"@, "Time management."@, spec_time_members()),
        ("Debug"@, "UnityEngine"@, CompletionEntryKind::Class, "Static class"@, "Debug utilities."@, spec_debug_members()),
        ("Physics"@, "UnityEngine"@, CompletionEntryKind::Class, "Static class"@, "Physics queries."@, spec_physics_members()),
        ("Screen"@, "UnityEngine"@, CompletionEntryKind::Class, "Static class"@, "Screen and display state."@, spec_screen_members()),
        ("Cursor"@, "UnityEngine"@, CompletionEntryKind::Class, "Static class"@, "Hardware cursor control."@, spec_cursor_members()),
        ("Resources"@, "UnityEngine"@, CompletionEntryKind::Class, "Static class"@, "Resources folder asset loading."@, spec_resources_members()),
        ("PlayerPrefs"@, "UnityEngine"@, CompletionEntryKind::Class, "Static class"@, "Simple persistent key-value storage."@, spec_player_prefs_members()),
        ("Mathf"@, "UnityEngine"@, CompletionEntryKind::Class, "Static class"@, "Math utilities."@, spec_mathf_members()),
        ("Vector3"@, "UnityEngine"@, CompletionEntryKind::Struct, "Struct"@, "3D vector."@, spec_vector3_members()),
        ("Vector2"@, "UnityEngine"@, CompletionEntryKind::Struct, "Struct"@, "2D vector."@, spec_vector2_members()),
        ("Color"@, "UnityEngine"@, CompletionEntryKind::Struct, "Struct"@, "RGBA color."@, spec_color_members()),
        ("Quaternion"@, "UnityEngine"@, CompletionEntryKind::Struct, "Struct"@, "Rotation quaternion."@, spec_quaternion_members()),
        ("Application"@, "UnityEngine"@, CompletionEntryKind::Class, "Static class"@, "Application info and control."@, spec_application_members()),
        ("SceneManager"@, "UnityEngine.SceneManagement"@, CompletionEntryKind::Class, "Static class"@, "Scene loading and management."@, spec_scene_manager_members()),
        ("UnityEvent"@, "UnityEngine.Events"@, CompletionEntryKind::Class, "Class"@, "Event type used by Unity UI and serialized callbacks."@, spec_unity_event_members()),
        ("Button"@, "UnityEngine.UI"@, CompletionEntryKind::Class, "Class"@, "UI button."@, spec_button_members()),
        ("Slider"@, "UnityEngine.UI"@, CompletionEntryKind::Class, "Class"@, "UI slider."@, spec_slider_members()),
        ("Int"@, "prsm"@, CompletionEntryKind::TypeParameter, "Primitive"@, "PrSM Int."@, spec_int_members()),
        ("Float"@, "prsm"@, CompletionEntryKind::TypeParameter, "Primitive"@, "PrSM Float."@, spec_float_members()),
        ("Double"@, "prsm"@, CompletionEntryKind::TypeParameter, "Primitive"@, "PrSM Double."@, spec_double_members()),
        ("Bool"@, "prsm"@, CompletionEntryKind::TypeParameter, "Primitive"@, "PrSM Bool."@, spec_bool_members()),
        ("String"@, "prsm"@, CompletionEntryKind::TypeParameter, "Primitive"@, "PrSM String."@, spec_string_members()),
        ("Long"@, "prsm"@, CompletionEntryKind::TypeParameter, "Primitive"@, "PrSM Long."@, spec_long_members()),
        ("Byte"@, "prsm"@, CompletionEntryKind::TypeParameter, "Primitive"@, "PrSM Byte."@, spec_byte_members()),
    ]
}

/// The core types, in table order.
pub fn core_types() -> (r: Vec<CoreType>)
    ensures
        r@.map_values(|t: CoreType| core_type_model(t)) == spec_core_types(),
{
    let r = vec![
        CoreType { name: "MonoBehaviour", namespace: "UnityEngine", kind: CompletionEntryKind::Class, kind_label: "Class", description: "Base class for Unity scripts.", members: mono_behaviour_members() },
        CoreType { name: "GameObject", namespace: "UnityEngine", kind: CompletionEntryKind::Class, kind_label: "Class", description: "Base class for all scene objects.", members: game_object_members() },
        CoreType { name: "Transform", namespace: "UnityEngine", kind: CompletionEntryKind::Class, kind_label: "Class", description: "Position, rotation, and scale of an object.", members: transform_members() },
        CoreType { name: "Rigidbody", namespace: "UnityEngine", kind: CompletionEntryKind::Class, kind_label: "Class", description: "Physics body for 3D objects.", members: rigidbody_members() },
        CoreType { name: "Animator", namespace: "UnityEngine", kind: CompletionEntryKind::Class, kind_label: "Class", description: "Controls animations.", members: animator_members() },
        CoreType { name: "Collider", namespace: "UnityEngine", kind: CompletionEntryKind::Class, kind_label: "Class", description: "Base collider type.", members: collider_members() },
        CoreType { name: "Collision", namespace: "UnityEngine", kind: CompletionEntryKind::Class, kind_label: "Class", description: "Collision event payload.", members: collision_members() },
        CoreType { name: "Camera", namespace: "UnityEngine", kind: CompletionEntryKind::Class, kind_label: "Class", description: "Scene camera and projection settings.", members: camera_members() },
        CoreType { name: "AudioSource", namespace: "UnityEngine", kind: CompletionEntryKind::Class, kind_label: "Class", description: "Audio playback component.", members: audio_source_members() },
        CoreType { name: "SpriteRenderer", namespace: "UnityEngine", kind: CompletionEntryKind::Class, kind_label: "Class", description: "2D sprite rendering component.", members: sprite_renderer_members() },
        CoreType { name: "Input", namespace: "UnityEngine", kind: CompletionEntryKind::Class, kind_label: "Static class", description: "Input system.", members: input_members() },
        CoreType { name: "Time", namespace: "UnityEngine", kind: CompletionEntryKind::Class, kind_label: "Static class", description: "Time management.", members: time_members() },
        CoreType { name: "Debug", namespace: "UnityEngine", kind: CompletionEntryKind::Class, kind_label: "Static class", description: "Debug utilities.", members: debug_members() },
        CoreType { name: "Physics", namespace: "UnityEngine", kind: CompletionEntryKind::Class, kind_label: "Static class", description: "Physics queries.", members: physics_members() },
        CoreType { name: "Screen", namespace: "UnityEngine", kind: CompletionEntryKind::Class, kind_label: "Static class", description: "Screen and display state.", members: screen_members() },
        CoreType { name: "Cursor", namespace: "UnityEngine", kind: CompletionEntryKind::Class, kind_label: "Static class", description: "Hardware cursor control.", members: cursor_members() },
        CoreType { name: "Resources", namespace: "UnityEngine", kind: CompletionEntryKind::Class, kind_label: "Static class", description: "Resources folder asset loading.", members: resources_members() },
        CoreType { name: "PlayerPrefs", namespace: "UnityEngine", kind: CompletionEntryKind::Class, kind_label: "Static class", description: "Simple persistent key-value storage.", members: player_prefs_members() },
        CoreType { name: "Mathf", namespace: "UnityEngine", kind: CompletionEntryKind::Class, kind_label: "Static class", description: "Math utilities.", members: mathf_members() },
        CoreType { name: "Vector3", namespace: "UnityEngine", kind: CompletionEntryKind::Struct, kind_label: "Struct", description: "3D vector.", members: vector3_members() },
        CoreType { name: "Vector2", namespace: "UnityEngine", kind: CompletionEntryKind::Struct, kind_label: "Struct", description: "2D vector.", members: vector2_members() },
        CoreType { name: "Color", namespace: "UnityEngine", kind: CompletionEntryKind::Struct, kind_label: "Struct", description: "RGBA color.", members: color_members() },
        CoreType { name: "Quaternion", namespace: "UnityEngine", kind: CompletionEntryKind::Struct, kind_label: "Struct", description: "Rotation quaternion.", members: quaternion_members() },
        CoreType { name: "Application", namespace: "UnityEngine", kind: CompletionEntryKind::Class, kind_label: "Static class", description: "Application info and control.", members: application_members() },
        CoreType { name: "SceneManager", namespace: "UnityEngine.SceneManagement", kind: CompletionEntryKind::Class, kind_label: "Static class", description: "Scene loading and management.", members: scene_manager_members() },
        CoreType { name: "UnityEvent", namespace: "UnityEngine.Events", kind: CompletionEntryKind::Class, kind_label: "Class", description: "Event type used by Unity UI and serialized callbacks.", members: unity_event_members() },
        CoreType { name: "Button", namespace: "UnityEngine.UI", kind: CompletionEntryKind::Class, kind_label: "Class", description: "UI button.", members: button_members() },
        CoreType { name: "Slider", namespace: "UnityEngine.UI", kind: CompletionEntryKind::Class, kind_label: "Class", description: "UI slider.", members: slider_members() },
        CoreType { name: "Int", namespace: "prsm", kind: CompletionEntryKind::TypeParameter, kind_label: "Primitive", description: "PrSM Int.", members: int_members() },
        CoreType { name: "Float", namespace: "prsm", kind: CompletionEntryKind::TypeParameter, kind_label: "Primitive", description: "PrSM Float.", members: float_members() },
        CoreType { name: "Double", namespace: "prsm", kind: CompletionEntryKind::TypeParameter, kind_label: "Primitive", description: "PrSM Double.", members: double_members() },
        CoreType { name: "Bool", namespace: "prsm", kind: CompletionEntryKind::TypeParameter, kind_label: "Primitive", description: "PrSM Bool.", members: bool_members() },
        CoreType { name: "String", namespace: "prsm", kind: CompletionEntryKind::TypeParameter, kind_label: "Primitive", description: "PrSM String.", members: string_members() },
        CoreType { name: "Long", namespace: "prsm", kind: CompletionEntryKind::TypeParameter, kind_label: "Primitive", description: "PrSM Long.", members: long_members() },
        CoreType { name: "Byte", namespace: "prsm", kind: CompletionEntryKind::TypeParameter, kind_label: "Primitive", description: "PrSM Byte.", members: byte_members() },
    ];
    proof {
        reveal(spec_core_types);
        assert(r@.map_values(|t: CoreType| core_type_model(t)) =~= spec_core_types());
    }
    r
}

/// The index of the first core type from `i` on whose name equals `canonical` up to ASCII case.
pub open spec fn spec_core_type_from(canonical: Seq<char>, i: int) -> Option<int>
    decreases spec_core_types().len() - i,
{
    if i < 0 || i >= spec_core_types().len() {
        None
    } else if spec_eq_ignore_ascii_case(spec_core_types()[i].0, canonical) {
        Some(i)
    } else {
        spec_core_type_from(canonical, i + 1)
    }
}

/// The core type a type name refers to: the first one whose name equals the name's bare
/// identifier up to ASCII case.
pub open spec fn spec_core_type_by_name(ty_name: Seq<char>) -> Option<(Seq<char>, Seq<char>, CompletionEntryKind, Seq<char>, Seq<char>, Seq<(Seq<char>, CompletionEntryKind, Seq<char>, Seq<char>)>)> {
    match spec_core_type_from(spec_canonical_type_ident(ty_name), 0) {
        Some(i) => Some(spec_core_types()[i]),
        None => None,
    }
}

proof fn lemma_core_type_from_bounds(canonical: Seq<char>, i: int)
    ensures
        spec_core_type_from(canonical, i) matches Some(k) ==> i <= k < spec_core_types().len()
            && spec_eq_ignore_ascii_case(spec_core_types()[k].0, canonical),
    decreases spec_core_types().len() - i,
{
    if 0 <= i < spec_core_types().len() && !spec_eq_ignore_ascii_case(spec_core_types()[i].0, canonical) {
        lemma_core_type_from_bounds(canonical, i + 1);
    }
}

/// The core type a type name refers to, if any (see `spec_core_type_by_name`).
pub fn core_type_by_name(ty_name: &str) -> (r: Option<CoreType>)
    ensures
        match r {
            Some(t) => spec_core_type_by_name(ty_name@) == Some(core_type_model(t)),
            None => spec_core_type_by_name(ty_name@) is None,
        },
{
    let canonical = canonical_type_ident(ty_name);
    let mut types = core_types();
    let ghost models = types@.map_values(|t: CoreType| core_type_model(t));
    let mut i: usize = 0;
    while i < types.len()
        invariant
            i <= types@.len(),
            models == types@.map_values(|t: CoreType| core_type_model(t)),
            models == spec_core_types(),
            canonical@ == spec_canonical_type_ident(ty_name@),
            spec_core_type_from(canonical@, 0) == spec_core_type_from(canonical@, i as int),
        decreases types@.len() - i,
    {
        proof {
            assert(models[i as int] == core_type_model(types@[i as int]));
        }
        if eq_ignore_ascii_case(types[i].name, canonical.as_str()) {
            let t = types.remove(i);
            return Some(t);
        }
        i = i + 1;
    }
    None
}

/// The documentation of a core type's entry: its kind label (ASCII lower case) and name
/// in a PrSM code block, then its description.
pub open spec fn spec_core_type_doc(kind_label: Seq<char>, name: Seq<char>, description: Seq<char>) -> Seq<char> {
    "```prsm\n"@ + spec_ascii_lowercase(kind_label) + " "@ + name + "\n```\n\n"@ + description
}

/// The completion entry of a core type, in the core type group.
pub open spec fn spec_is_core_type_entry(
    e: CompletionEntry,
    t: (Seq<char>, Seq<char>, CompletionEntryKind, Seq<char>, Seq<char>, Seq<(Seq<char>, CompletionEntryKind, Seq<char>, Seq<char>)>),
) -> bool {
    &&& e.label@ == t.0
    &&& e.kind == t.2
    &&& e.detail@ == (if t.1.len() == 0 { t.3 } else { t.3 + " ("@ + t.1 + ")"@ })
    &&& e.documentation matches Some(d) && d@ == spec_core_type_doc(t.3, t.0, t.4)
    &&& e.insert_text is None
    &&& e.sort_group == 5
}

/// The completion entry of a core type.
pub fn core_type_completion_entry(t: &CoreType) -> (r: CompletionEntry)
    ensures
        spec_is_core_type_entry(r, core_type_model(*t)),
{
    let detail = if t.namespace.is_empty() {
        owned(t.kind_label)
    } else {
        let mut d = cat3(t.kind_label, " (", t.namespace);
        d.append(")");
        d
    };
    let lower = ascii_lowercase(t.kind_label);
    let mut doc = cat3("```prsm\n", lower.as_str(), " ");
    doc.append(t.name);
    doc.append("\n```\n\n");
    doc.append(t.description);
    CompletionEntry {
        label: owned(t.name),
        kind: t.kind,
        detail,
        documentation: Some(doc),
        insert_text: None,
        sort_group: 5,
    }
}

/// The documentation of a core member's entry: its signature in a PrSM code block, its
/// description, and the owning type's name in italics.
pub open spec fn spec_core_member_doc(signature: Seq<char>, description: Seq<char>, ty_name: Seq<char>) -> Seq<char> {
    "```prsm\n"@ + signature + "\n```\n\n"@ + description + "\n\n_"@ + ty_name + "_."@
}

/// The completion entry of a member of a core type, in the member group.
pub open spec fn spec_is_core_member_entry(
    e: CompletionEntry,
    m: (Seq<char>, CompletionEntryKind, Seq<char>, Seq<char>),
    ty_name: Seq<char>,
) -> bool {
    &&& e.label@ == m.0
    &&& e.kind == m.1
    &&& e.detail@ == m.2
    &&& e.documentation matches Some(d) && d@ == spec_core_member_doc(m.2, m.3, ty_name)
    &&& match (e.insert_text, spec_completion_snippet_for_signature(m.0, m.2, m.1)) {
        (Some(a), Some(b)) => a@ == b,
        (None, None) => true,
        _ => false,
    }
    &&& e.sort_group == 0
}

/// The completion entry of member `m` of core type `t`.
pub fn core_member_completion_entry(m: &CoreMember, t: &CoreType) -> (r: CompletionEntry)
    ensures
        spec_is_core_member_entry(r, core_member_model(*m), t.name@),
{
    let mut doc = cat3("```prsm\n", m.signature, "\n```\n\n");
    doc.append(m.description);
    doc.append("\n\n_");
    doc.append(t.name);
    doc.append("_.");
    CompletionEntry {
        label: owned(m.name),
        kind: m.kind,
        detail: owned(m.signature),
        documentation: Some(doc),
        insert_text: completion_snippet_for_signature(m.name, m.signature, m.kind),
        sort_group: 0,
    }
}

/// Whether a core type is one of PrSM's primitive types (offered separately).
pub open spec fn spec_is_primitive_core_type(
    t: (Seq<char>, Seq<char>, CompletionEntryKind, Seq<char>, Seq<char>, Seq<(Seq<char>, CompletionEntryKind, Seq<char>, Seq<char>)>),
) -> bool {
    spec_primitive_type_names().contains(t.0)
}

/// The core types offered as types: every one that is not a PrSM primitive.
pub open spec fn spec_offered_core_types() -> Seq<(Seq<char>, Seq<char>, CompletionEntryKind, Seq<char>, Seq<char>, Seq<(Seq<char>, CompletionEntryKind, Seq<char>, Seq<char>)>)> {
    spec_core_types().filter(|t: (Seq<char>, Seq<char>, CompletionEntryKind, Seq<char>, Seq<char>, Seq<(Seq<char>, CompletionEntryKind, Seq<char>, Seq<char>)>)| !spec_is_primitive_core_type(t))
}

fn is_primitive_type_name(name: &str) -> (r: bool)
    ensures
        r == spec_primitive_type_names().contains(name@),
{
    let names: Vec<&str> = vec!["Int", "Float", "Double", "Bool", "String", "Long", "Byte", "Unit"];
    proof {
        assert(names@.map_values(|k: &str| k@) =~= spec_primitive_type_names());
    }
    let mut i: usize = 0;
    while i < names.len()
        invariant
            i <= names@.len(),
            names@.map_values(|k: &str| k@) == spec_primitive_type_names(),
            forall|j: int| 0 <= j < i ==> spec_primitive_type_names()[j] != name@,
        decreases names@.len() - i,
    {
        proof {
            assert(names@.map_values(|k: &str| k@)[i as int] == names@[i as int]@);
        }
        if str_eq(names[i], name) {
            proof {
                assert(spec_primitive_type_names()[i as int] == name@);
            }
            return true;
        }
        i = i + 1;
    }
    false
}

/// One entry per core type that is not a PrSM primitive, in table order.
pub fn core_type_completion_entries() -> (r: Vec<CompletionEntry>)
    ensures
        r@.len() == spec_offered_core_types().len(),
        forall|i: int| 0 <= i < r@.len() ==> spec_is_core_type_entry(#[trigger] r@[i], spec_offered_core_types()[i]),
{
    let types = core_types();
    let ghost models = types@.map_values(|t: CoreType| core_type_model(t));
    let ghost pred = |t: (Seq<char>, Seq<char>, CompletionEntryKind, Seq<char>, Seq<char>, Seq<(Seq<char>, CompletionEntryKind, Seq<char>, Seq<char>)>)| !spec_is_primitive_core_type(t);
    let mut entries: Vec<CompletionEntry> = Vec::new();
    let mut i: usize = 0;
    while i < types.len()
        invariant
            i <= types@.len(),
            models == types@.map_values(|t: CoreType| core_type_model(t)),
            models == spec_core_types(),
            pred == (|t: (Seq<char>, Seq<char>, CompletionEntryKind, Seq<char>, Seq<char>, Seq<(Seq<char>, CompletionEntryKind, Seq<char>, Seq<char>)>)| !spec_is_primitive_core_type(t)),
            entries@.len() == models.take(i as int).filter(pred).len(),
            forall|j: int| 0 <= j < entries@.len() ==> spec_is_core_type_entry(#[trigger] entries@[j], models.take(i as int).filter(pred)[j]),
        decreases types@.len() - i,
    {
        let ghost before = models.take(i as int);
        let ghost after = models.take(i + 1);
        proof {
            assert(after.drop_last() =~= before);
            assert(after.last() == models[i as int]);
            assert(models[i as int] == core_type_model(types@[i as int]));
            reveal_with_fuel(Seq::filter, 1);
        }
        if !is_primitive_type_name(types[i].name) {
            let e = core_type_completion_entry(&types[i]);
            entries.push(e);
            proof {
                assert(after.filter(pred) == before.filter(pred).push(after.last()));
            }
        } else {
            proof {
                assert(after.filter(pred) == before.filter(pred));
            }
        }
        i = i + 1;
    }
    proof {
        assert(models.take(types@.len() as int) =~= models);
    }
    entries
}

} // verus!
