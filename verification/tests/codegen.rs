use limen::codegen::{Edge, GraphBuilder, Node};

fn ty_path(s: &str) -> syn::TypePath {
    syn::parse_str::<syn::TypePath>(s).unwrap()
}

fn ty(s: &str) -> syn::Type {
    syn::parse_str::<syn::Type>(s).unwrap()
}

fn expr(s: &str) -> syn::Expr {
    syn::parse_str::<syn::Expr>(s).unwrap()
}

#[test]
fn graph_builder_collects_nodes_and_edges() {
    let vis = syn::parse_str::<syn::Visibility>("pub").unwrap();
    let name = syn::parse_str::<syn::Ident>("TestPipeline").unwrap();

    let src = Node::new(0)
        .ty(ty_path("TestCounterSourceU32"))
        .in_ports(0)
        .out_ports(1)
        .in_payload(ty("()"))
        .out_payload(ty("u32"))
        .name(expr("Some(\"src\")"))
        .ingress_policy(expr("Q_32_POLICY"));
    let snk = Node::new(1)
        .ty(ty_path("TestSinkNodeU32"))
        .in_ports(1)
        .out_ports(0)
        .in_payload(ty("u32"))
        .out_payload(ty("()"));
    let e0 = Edge::new(0)
        .ty(ty_path("Q32"))
        .payload(ty("u32"))
        .from(0, 0)
        .to(1, 0)
        .policy(expr("Q_32_POLICY"))
        .name(expr("Some(\"e0\")"));

    let g = GraphBuilder::new(vis, name).node(src).node(snk).edge(e0).finish();
    assert_eq!(g.name.to_string(), "TestPipeline");
    assert_eq!(g.nodes.len(), 2);
    assert_eq!(g.edges.len(), 1);
    assert_eq!((g.nodes[0].idx, g.nodes[0].in_ports, g.nodes[0].out_ports), (0, 0, 1));
    assert_eq!((g.nodes[1].idx, g.nodes[1].in_ports, g.nodes[1].out_ports), (1, 1, 0));
    assert!(g.nodes[0].name_opt.is_some());
    assert!(g.nodes[1].ingress_policy_opt.is_none());
    let e = &g.edges[0];
    assert_eq!((e.idx, e.from_node, e.from_port, e.to_node, e.to_port), (0, 0, 0, 1, 0));
    assert!(e.name_opt.is_some());
}

#[test]
fn edges_keep_declaration_order() {
    let vis = syn::parse_str::<syn::Visibility>("pub(crate)").unwrap();
    let name = syn::parse_str::<syn::Ident>("Chain").unwrap();
    let mut b = GraphBuilder::new(vis, name);
    for i in 0..3usize {
        let e = Edge::new(i)
            .ty(ty_path("Q32"))
            .payload(ty("u32"))
            .from(i, 0)
            .to(i + 1, 0)
            .policy(expr("P"));
        b = b.edge(e);
    }
    let g = b.finish();
    assert_eq!(g.nodes.len(), 0);
    let idxs: Vec<(usize, usize, usize)> = g.edges.iter().map(|e| (e.idx, e.from_node, e.to_node)).collect();
    assert_eq!(idxs, vec![(0, 0, 1), (1, 1, 2), (2, 2, 3)]);
    assert!(g.edges.iter().all(|e| e.name_opt.is_none()));
}
