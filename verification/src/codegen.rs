//! Typed builder for graph definitions: nodes and edges are described with
//! `syn` types and expressions and collected into a `GraphDef` for code generation.

use vstd::prelude::*;
use syn::{Expr, Ident, Type, TypePath, Visibility};

verus! {

#[verifier::external_type_specification]
#[verifier::external_body]
pub struct ExVisibility(syn::Visibility);

#[verifier::external_type_specification]
#[verifier::external_body]
pub struct ExIdent(syn::Ident);

#[verifier::external_type_specification]
#[verifier::external_body]
pub struct ExType(syn::Type);

#[verifier::external_type_specification]
#[verifier::external_body]
pub struct ExTypePath(syn::TypePath);

#[verifier::external_type_specification]
#[verifier::external_body]
pub struct ExExpr(syn::Expr);

/// A node of a graph definition.
pub struct NodeDef {
    /// Node index.
    pub idx: usize,
    /// Node type.
    pub ty: TypePath,
    /// Number of input ports.
    pub in_ports: usize,
    /// Number of output ports.
    pub out_ports: usize,
    /// Input payload type.
    pub in_payload: Type,
    /// Output payload type.
    pub out_payload: Type,
    /// Optional name expression.
    pub name_opt: Option<Expr>,
    /// Optional ingress policy expression.
    pub ingress_policy_opt: Option<Expr>,
}

/// An edge of a graph definition.
pub struct EdgeDef {
    /// Edge index.
    pub idx: usize,
    /// Queue type.
    pub ty: TypePath,
    /// Payload type.
    pub payload: Type,
    /// Upstream node.
    pub from_node: usize,
    /// Upstream output port.
    pub from_port: usize,
    /// Downstream node.
    pub to_node: usize,
    /// Downstream input port.
    pub to_port: usize,
    /// Edge policy expression.
    pub policy: Expr,
    /// Optional name expression.
    pub name_opt: Option<Expr>,
}

/// A complete graph definition.
pub struct GraphDef {
    /// Visibility of the generated graph type.
    pub vis: Visibility,
    /// Name of the generated graph type.
    pub name: Ident,
    /// Nodes in declaration order.
    pub nodes: Vec<NodeDef>,
    /// Edges in declaration order.
    pub edges: Vec<EdgeDef>,
}

/// Collects nodes and edges of a graph definition.
pub struct GraphBuilder {
    vis: Option<Visibility>,
    name: Option<Ident>,
    nodes: Vec<NodeDef>,
    edges: Vec<EdgeDef>,
}

impl Default for GraphBuilder {
    fn default() -> (g: Self)
        ensures
            g.spec_vis() is None,
            g.spec_name() is None,
            g.spec_nodes().len() == 0,
            g.spec_edges().len() == 0,
    {
        GraphBuilder { vis: None, name: None, nodes: Vec::new(), edges: Vec::new() }
    }
}

impl GraphBuilder {
    /// Visibility set so far.
    pub closed spec fn spec_vis(&self) -> Option<Visibility> {
        self.vis
    }

    /// Name set so far.
    pub closed spec fn spec_name(&self) -> Option<Ident> {
        self.name
    }

    /// Nodes added so far.
    pub closed spec fn spec_nodes(&self) -> Seq<NodeDef> {
        self.nodes@
    }

    /// Edges added so far.
    pub closed spec fn spec_edges(&self) -> Seq<EdgeDef> {
        self.edges@
    }

    /// Start a graph with its visibility and name.
    pub fn new(vis: Visibility, name: Ident) -> (g: Self)
        ensures
            g.spec_vis() == Some(vis),
            g.spec_name() == Some(name),
            g.spec_nodes().len() == 0,
            g.spec_edges().len() == 0,
    {
        GraphBuilder { vis: Some(vis), name: Some(name), nodes: Vec::new(), edges: Vec::new() }
    }

    /// Add a complete node.
    pub fn node(self, n: Node) -> (g: Self)
        requires
            n.complete(),
        ensures
            g.spec_vis() == self.spec_vis(),
            g.spec_name() == self.spec_name(),
            g.spec_nodes() == self.spec_nodes().push(n.def()),
            g.spec_edges() == self.spec_edges(),
    {
        let mut s = self;
        s.nodes.push(n.finish());
        s
    }

    /// Add a complete edge.
    pub fn edge(self, e: Edge) -> (g: Self)
        requires
            e.complete(),
        ensures
            g.spec_vis() == self.spec_vis(),
            g.spec_name() == self.spec_name(),
            g.spec_nodes() == self.spec_nodes(),
            g.spec_edges() == self.spec_edges().push(e.def()),
    {
        let mut s = self;
        s.edges.push(e.finish());
        s
    }

    /// The graph definition; visibility and name must have been set.
    pub fn finish(self) -> (d: GraphDef)
        requires
            self.spec_vis() is Some,
            self.spec_name() is Some,
        ensures
            d.vis == self.spec_vis()->0,
            d.name == self.spec_name()->0,
            d.nodes@ == self.spec_nodes(),
            d.edges@ == self.spec_edges(),
    {
        GraphDef { vis: self.vis.unwrap(), name: self.name.unwrap(), nodes: self.nodes, edges: self.edges }
    }
}

/// Builder of one node definition.
pub struct Node {
    idx: usize,
    ty: Option<TypePath>,
    in_ports: Option<usize>,
    out_ports: Option<usize>,
    in_payload: Option<Type>,
    out_payload: Option<Type>,
    name_opt: Option<Expr>,
    ingress_policy_opt: Option<Expr>,
}

impl Node {
    /// Every required part has been given.
    pub closed spec fn complete(&self) -> bool {
        &&& self.ty is Some
        &&& self.in_ports is Some
        &&& self.out_ports is Some
        &&& self.in_payload is Some
        &&& self.out_payload is Some
    }

    /// The definition a complete builder produces.
    pub closed spec fn def(&self) -> NodeDef {
        NodeDef {
            idx: self.idx,
            ty: self.ty->0,
            in_ports: self.in_ports->0,
            out_ports: self.out_ports->0,
            in_payload: self.in_payload->0,
            out_payload: self.out_payload->0,
            name_opt: self.name_opt,
            ingress_policy_opt: self.ingress_policy_opt,
        }
    }

    /// The parts given so far: index, type, ports, payloads, name, ingress policy.
    pub closed spec fn parts(&self) -> (usize, Option<TypePath>, Option<usize>, Option<usize>, Option<Type>, Option<Type>, Option<Expr>, Option<Expr>) {
        (self.idx, self.ty, self.in_ports, self.out_ports, self.in_payload, self.out_payload, self.name_opt, self.ingress_policy_opt)
    }

    /// A node with only its index.
    pub fn new(idx: usize) -> (n: Self)
        ensures
            n.parts() == (idx, None::<TypePath>, None::<usize>, None::<usize>, None::<Type>, None::<Type>, None::<Expr>, None::<Expr>),
    {
        Node {
            idx,
            ty: None,
            in_ports: None,
            out_ports: None,
            in_payload: None,
            out_payload: None,
            name_opt: None,
            ingress_policy_opt: None,
        }
    }

    /// Set the node type.
    pub fn ty(self, t: TypePath) -> (n: Self)
        ensures
            n.parts() == (self.parts().0, Some(t), self.parts().2, self.parts().3, self.parts().4, self.parts().5, self.parts().6, self.parts().7),
    {
        let mut s = self;
        s.ty = Some(t);
        s
    }

    /// Set the number of input ports.
    pub fn in_ports(self, k: usize) -> (n: Self)
        ensures
            n.parts() == (self.parts().0, self.parts().1, Some(k), self.parts().3, self.parts().4, self.parts().5, self.parts().6, self.parts().7),
    {
        let mut s = self;
        s.in_ports = Some(k);
        s
    }

    /// Set the number of output ports.
    pub fn out_ports(self, k: usize) -> (n: Self)
        ensures
            n.parts() == (self.parts().0, self.parts().1, self.parts().2, Some(k), self.parts().4, self.parts().5, self.parts().6, self.parts().7),
    {
        let mut s = self;
        s.out_ports = Some(k);
        s
    }

    /// Set the input payload type.
    pub fn in_payload(self, t: Type) -> (n: Self)
        ensures
            n.parts() == (self.parts().0, self.parts().1, self.parts().2, self.parts().3, Some(t), self.parts().5, self.parts().6, self.parts().7),
    {
        let mut s = self;
        s.in_payload = Some(t);
        s
    }

    /// Set the output payload type.
    pub fn out_payload(self, t: Type) -> (n: Self)
        ensures
            n.parts() == (self.parts().0, self.parts().1, self.parts().2, self.parts().3, self.parts().4, Some(t), self.parts().6, self.parts().7),
    {
        let mut s = self;
        s.out_payload = Some(t);
        s
    }

    /// Set the name expression.
    pub fn name(self, e: Expr) -> (n: Self)
        ensures
            n.parts() == (self.parts().0, self.parts().1, self.parts().2, self.parts().3, self.parts().4, self.parts().5, Some(e), self.parts().7),
    {
        let mut s = self;
        s.name_opt = Some(e);
        s
    }

    /// Set the ingress policy expression.
    pub fn ingress_policy(self, e: Expr) -> (n: Self)
        ensures
            n.parts() == (self.parts().0, self.parts().1, self.parts().2, self.parts().3, self.parts().4, self.parts().5, self.parts().6, Some(e)),
    {
        let mut s = self;
        s.ingress_policy_opt = Some(e);
        s
    }

    fn finish(self) -> (d: NodeDef)
        requires
            self.complete(),
        ensures
            d == self.def(),
    {
        NodeDef {
            idx: self.idx,
            ty: self.ty.unwrap(),
            in_ports: self.in_ports.unwrap(),
            out_ports: self.out_ports.unwrap(),
            in_payload: self.in_payload.unwrap(),
            out_payload: self.out_payload.unwrap(),
            name_opt: self.name_opt,
            ingress_policy_opt: self.ingress_policy_opt,
        }
    }
}

/// Builder of one edge definition.
pub struct Edge {
    idx: usize,
    ty: Option<TypePath>,
    payload: Option<Type>,
    from_node: Option<usize>,
    from_port: Option<usize>,
    to_node: Option<usize>,
    to_port: Option<usize>,
    policy: Option<Expr>,
    name_opt: Option<Expr>,
}

impl Edge {
    /// Every required part has been given.
    pub closed spec fn complete(&self) -> bool {
        &&& self.ty is Some
        &&& self.payload is Some
        &&& self.from_node is Some
        &&& self.from_port is Some
        &&& self.to_node is Some
        &&& self.to_port is Some
        &&& self.policy is Some
    }

    /// The definition a complete builder produces.
    pub closed spec fn def(&self) -> EdgeDef {
        EdgeDef {
            idx: self.idx,
            ty: self.ty->0,
            payload: self.payload->0,
            from_node: self.from_node->0,
            from_port: self.from_port->0,
            to_node: self.to_node->0,
            to_port: self.to_port->0,
            policy: self.policy->0,
            name_opt: self.name_opt,
        }
    }

    /// The index and the type, payload, policy and name given so far.
    pub closed spec fn parts(&self) -> (usize, Option<TypePath>, Option<Type>, Option<Expr>, Option<Expr>) {
        (self.idx, self.ty, self.payload, self.policy, self.name_opt)
    }

    /// The endpoints given so far: upstream node and port, downstream node and port.
    pub closed spec fn ends(&self) -> (Option<usize>, Option<usize>, Option<usize>, Option<usize>) {
        (self.from_node, self.from_port, self.to_node, self.to_port)
    }

    /// An edge with only its index.
    pub fn new(idx: usize) -> (e: Self)
        ensures
            e.parts() == (idx, None::<TypePath>, None::<Type>, None::<Expr>, None::<Expr>),
            e.ends() == (None::<usize>, None::<usize>, None::<usize>, None::<usize>),
    {
        Edge {
            idx,
            ty: None,
            payload: None,
            from_node: None,
            from_port: None,
            to_node: None,
            to_port: None,
            policy: None,
            name_opt: None,
        }
    }

    /// Set the queue type.
    pub fn ty(self, t: TypePath) -> (e: Self)
        ensures
            e.parts() == (self.parts().0, Some(t), self.parts().2, self.parts().3, self.parts().4),
            e.ends() == self.ends(),
    {
        let mut s = self;
        s.ty = Some(t);
        s
    }

    /// Set the payload type.
    pub fn payload(self, t: Type) -> (e: Self)
        ensures
            e.parts() == (self.parts().0, self.parts().1, Some(t), self.parts().3, self.parts().4),
            e.ends() == self.ends(),
    {
        let mut s = self;
        s.payload = Some(t);
        s
    }

    /// Set the upstream node and output port.
    pub fn from(self, node: usize, port: usize) -> (e: Self)
        ensures
            e.parts() == self.parts(),
            e.ends() == (Some(node), Some(port), self.ends().2, self.ends().3),
    {
        let mut s = self;
        s.from_node = Some(node);
        s.from_port = Some(port);
        s
    }

    /// Set the downstream node and input port.
    pub fn to(self, node: usize, port: usize) -> (e: Self)
        ensures
            e.parts() == self.parts(),
            e.ends() == (self.ends().0, self.ends().1, Some(node), Some(port)),
    {
        let mut s = self;
        s.to_node = Some(node);
        s.to_port = Some(port);
        s
    }

    /// Set the edge policy expression.
    pub fn policy(self, x: Expr) -> (e: Self)
        ensures
            e.parts() == (self.parts().0, self.parts().1, self.parts().2, Some(x), self.parts().4),
            e.ends() == self.ends(),
    {
        let mut s = self;
        s.policy = Some(x);
        s
    }

    /// Set the name expression.
    pub fn name(self, x: Expr) -> (e: Self)
        ensures
            e.parts() == (self.parts().0, self.parts().1, self.parts().2, self.parts().3, Some(x)),
            e.ends() == self.ends(),
    {
        let mut s = self;
        s.name_opt = Some(x);
        s
    }

    fn finish(self) -> (d: EdgeDef)
        requires
            self.complete(),
        ensures
            d == self.def(),
    {
        EdgeDef {
            idx: self.idx,
            ty: self.ty.unwrap(),
            payload: self.payload.unwrap(),
            from_node: self.from_node.unwrap(),
            from_port: self.from_port.unwrap(),
            to_node: self.to_node.unwrap(),
            to_port: self.to_port.unwrap(),
            policy: self.policy.unwrap(),
            name_opt: self.name_opt,
        }
    }
}

} // verus!
