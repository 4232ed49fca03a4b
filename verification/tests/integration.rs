// End-to-end tests: every operation is run against a small stand-in for the
// engine, which keeps graphs as edge lists, answers each call the way the
// engine documents it, and counts what it is asked to do.

use std::collections::BTreeSet;
use std::collections::VecDeque;

use igraph::{
    Action, Call, Connectedness, Container, Error, Loops, Matrix, NeighborMode, Operation, Query,
    Real, StarMode, ToDirectedMode, ToUndirectedMode, TreeMode, Vector, VectorInt, VectorIntList,
};

const EINVAL: u32 = 4;
const EINVVID: u32 = 7;
const EINVEID: u32 = 8;
const UNIMPLEMENTED: u32 = 12;

// ---------------------------------------------------------------------------
// The stand-in engine
// ---------------------------------------------------------------------------

#[derive(Clone, Debug, PartialEq)]
struct Raw {
    n: i64,
    directed: bool,
    edges: Vec<(i64, i64)>,
}

#[derive(Clone, Debug)]
enum Store {
    Ints(Vec<i64>),
    Reals(Vec<f64>),
    Matrix { nrow: i64, ncol: i64, data: Vec<f64> },
    Lists(Vec<Vec<i64>>),
}

#[derive(Default)]
struct Outputs {
    stores: Vec<Store>,
    ints: Vec<i64>,
    reals: Vec<f64>,
    flags: Vec<bool>,
    graph: Option<Raw>,
}

#[derive(Default)]
struct Engine {
    log: Vec<Action>,
    inits: usize,
    destroys: usize,
    answered: usize,
    fail_at: Option<(usize, u32)>,
}

impl Engine {
    fn new() -> Engine {
        Engine::default()
    }

    fn failing(at: usize, status: u32) -> Engine {
        Engine { fail_at: Some((at, status)), ..Engine::default() }
    }

    // The status to inject for the next call that is answered by one.
    fn injected(&mut self) -> Option<u32> {
        let k = self.answered;
        self.answered += 1;
        match self.fail_at {
            Some((at, status)) if at == k => Some(status),
            _ => None,
        }
    }
}

fn adjacency(g: &Raw, follow_out: bool, follow_in: bool) -> Vec<Vec<i64>> {
    let mut adj = vec![Vec::new(); g.n as usize];
    for &(a, b) in &g.edges {
        if !g.directed {
            adj[a as usize].push(b);
            adj[b as usize].push(a);
        } else {
            if follow_out {
                adj[a as usize].push(b);
            }
            if follow_in {
                adj[b as usize].push(a);
            }
        }
    }
    adj
}

fn mode_adjacency(g: &Raw, mode: u32) -> Vec<Vec<i64>> {
    adjacency(g, mode == 1 || mode == 3, mode == 2 || mode == 3)
}

fn bfs(adj: &[Vec<i64>], source: usize) -> Vec<f64> {
    let mut dist = vec![f64::INFINITY; adj.len()];
    let mut queue = VecDeque::new();
    dist[source] = 0.0;
    queue.push_back(source);
    while let Some(v) = queue.pop_front() {
        for &w in &adj[v] {
            if dist[w as usize].is_infinite() {
                dist[w as usize] = dist[v] + 1.0;
                queue.push_back(w as usize);
            }
        }
    }
    dist
}

fn components(g: &Raw) -> (Vec<i64>, Vec<i64>) {
    let adj = adjacency(g, true, true);
    let mut membership = vec![-1i64; g.n as usize];
    let mut sizes = Vec::new();
    for start in 0..g.n as usize {
        if membership[start] >= 0 {
            continue;
        }
        let id = sizes.len() as i64;
        let mut size = 0;
        let mut stack = vec![start];
        membership[start] = id;
        while let Some(v) = stack.pop() {
            size += 1;
            for &w in &adj[v] {
                if membership[w as usize] < 0 {
                    membership[w as usize] = id;
                    stack.push(w as usize);
                }
            }
        }
        sizes.push(size);
    }
    (membership, sizes)
}

fn betweenness(g: &Raw, directed: bool) -> Vec<f64> {
    let follow = g.directed && directed;
    let adj = if follow { adjacency(g, true, false) } else { adjacency(g, true, true) };
    let n = g.n as usize;
    let mut result = vec![0.0; n];
    for s in 0..n {
        let mut order = Vec::new();
        let mut preds: Vec<Vec<usize>> = vec![Vec::new(); n];
        let mut sigma = vec![0.0f64; n];
        let mut dist = vec![-1i64; n];
        sigma[s] = 1.0;
        dist[s] = 0;
        let mut queue = VecDeque::new();
        queue.push_back(s);
        while let Some(v) = queue.pop_front() {
            order.push(v);
            for &w in &adj[v] {
                let w = w as usize;
                if dist[w] < 0 {
                    dist[w] = dist[v] + 1;
                    queue.push_back(w);
                }
                if dist[w] == dist[v] + 1 {
                    sigma[w] += sigma[v];
                    preds[w].push(v);
                }
            }
        }
        let mut delta = vec![0.0f64; n];
        while let Some(w) = order.pop() {
            for &v in &preds[w] {
                delta[v] += sigma[v] / sigma[w] * (1.0 + delta[w]);
            }
            if w != s {
                result[w] += delta[w];
            }
        }
    }
    if !follow {
        for b in result.iter_mut() {
            *b /= 2.0;
        }
    }
    result
}

fn pagerank(g: &Raw, damping: f64) -> Vec<f64> {
    let n = g.n as usize;
    let adj = if g.directed { adjacency(g, true, false) } else { adjacency(g, true, true) };
    let mut rank = vec![1.0 / n as f64; n];
    for _ in 0..200 {
        let mut next = vec![(1.0 - damping) / n as f64; n];
        for v in 0..n {
            if adj[v].is_empty() {
                for slot in next.iter_mut() {
                    *slot += damping * rank[v] / n as f64;
                }
            } else {
                for &w in &adj[v] {
                    next[w as usize] += damping * rank[v] / adj[v].len() as f64;
                }
            }
        }
        rank = next;
    }
    let total: f64 = rank.iter().sum();
    rank.iter().map(|r| r / total).collect()
}

fn unordered(a: i64, b: i64) -> (i64, i64) {
    if a <= b {
        (a, b)
    } else {
        (b, a)
    }
}

fn famous(name: &str) -> Option<Raw> {
    let petersen: Vec<(i64, i64)> = vec![
        (0, 1), (0, 4), (0, 5), (1, 2), (1, 6), (2, 3), (2, 7), (3, 4), (3, 8), (4, 9), (5, 7),
        (5, 8), (6, 8), (6, 9), (7, 9),
    ];
    let zachary: Vec<(i64, i64)> = vec![
        (0, 1), (0, 2), (0, 3), (0, 4), (0, 5), (0, 6), (0, 7), (0, 8), (0, 10), (0, 11), (0, 12),
        (0, 13), (0, 17), (0, 19), (0, 21), (0, 31), (1, 2), (1, 3), (1, 7), (1, 13), (1, 17),
        (1, 19), (1, 21), (1, 30), (2, 3), (2, 7), (2, 27), (2, 28), (2, 32), (2, 9), (2, 8),
        (2, 13), (3, 7), (3, 12), (3, 13), (4, 6), (4, 10), (5, 6), (5, 10), (5, 16), (6, 16),
        (8, 30), (8, 32), (8, 33), (9, 33), (13, 33), (14, 32), (14, 33), (15, 32), (15, 33),
        (18, 32), (18, 33), (19, 33), (20, 32), (20, 33), (22, 32), (22, 33), (23, 25), (23, 27),
        (23, 32), (23, 33), (23, 29), (24, 25), (24, 27), (24, 31), (25, 31), (26, 29), (26, 33),
        (27, 33), (28, 31), (28, 33), (29, 32), (29, 33), (30, 32), (30, 33), (31, 32), (31, 33),
        (32, 33),
    ];
    match name {
        "Petersen" => Some(Raw { n: 10, directed: false, edges: petersen }),
        "Zachary" => Some(Raw { n: 34, directed: false, edges: zachary }),
        _ => None,
    }
}

fn ints(stores: &[Store], slot: usize) -> Vec<i64> {
    match &stores[slot] {
        Store::Ints(v) => v.clone(),
        _ => panic!("container {} is not an integer vector", slot),
    }
}

fn in_range(g: &Raw, ids: &[i64]) -> bool {
    ids.iter().all(|&v| 0 <= v && v < g.n)
}

// Makes one call the way the engine would.  Returns the status.
fn invoke(
    call: Call,
    mut this: Option<&mut Raw>,
    other: Option<&Raw>,
    name: &str,
    stores: &mut [Store],
    out: &mut Outputs,
) -> u32 {
    match call {
        Call::Empty { n, directed } => {
            if n < 0 {
                return EINVAL;
            }
            out.graph = Some(Raw { n, directed, edges: Vec::new() });
        }
        Call::Create { n, directed } => {
            let flat = ints(stores, 0);
            if flat.len() % 2 != 0 || n < 0 {
                return EINVAL;
            }
            if flat.iter().any(|&v| v < 0) {
                return EINVVID;
            }
            let most = flat.iter().copied().max().map_or(0, |m| m + 1);
            let edges = flat.chunks(2).map(|c| (c[0], c[1])).collect();
            out.graph = Some(Raw { n: n.max(most), directed, edges });
        }
        Call::Famous => match famous(name) {
            Some(g) => out.graph = Some(g),
            None => return EINVAL,
        },
        Call::Ring { n, directed, mutual, circular } => {
            if n < 0 {
                return EINVAL;
            }
            let mut edges = Vec::new();
            for i in 0..n - 1 {
                edges.push((i, i + 1));
                if directed && mutual {
                    edges.push((i + 1, i));
                }
            }
            if circular && n > 2 {
                edges.push((n - 1, 0));
                if directed && mutual {
                    edges.push((0, n - 1));
                }
            }
            out.graph = Some(Raw { n, directed, edges });
        }
        Call::Star { n, mode, center } => {
            if n < 0 || center < 0 || (n > 0 && center >= n) {
                return EINVVID;
            }
            let mut edges = Vec::new();
            for i in (0..n).filter(|&i| i != center) {
                match mode {
                    0 => edges.push((center, i)),
                    1 => edges.push((i, center)),
                    2 => edges.push((center, i)),
                    _ => {
                        edges.push((center, i));
                        edges.push((i, center));
                    }
                }
            }
            out.graph = Some(Raw { n, directed: mode != 2, edges });
        }
        Call::Full { n, directed, loops } => {
            if n < 0 {
                return EINVAL;
            }
            let mut edges = Vec::new();
            for i in 0..n {
                for j in 0..n {
                    if (i < j) || (directed && i > j) || (loops && i == j) {
                        edges.push((i, j));
                    }
                }
            }
            out.graph = Some(Raw { n, directed, edges });
        }
        Call::KaryTree { n, children, mode } => {
            if n < 0 || children <= 0 {
                return EINVAL;
            }
            let mut edges = Vec::new();
            for i in 1..n {
                let parent = (i - 1) / children;
                if mode == 1 {
                    edges.push((i, parent));
                } else {
                    edges.push((parent, i));
                }
            }
            out.graph = Some(Raw { n, directed: mode != 2, edges });
        }
        Call::ErdosRenyiGnm { n, m, directed, edge_types, .. } => {
            let loops = edge_types & 1 == 1;
            let mut all = Vec::new();
            for i in 0..n {
                for j in 0..n {
                    if (i < j) || (directed && i > j) || (loops && i == j) {
                        all.push((i, j));
                    }
                }
            }
            if n < 0 || m < 0 || m as usize > all.len() {
                return EINVAL;
            }
            let mut seed: u64 = 0x2545_f491_4f6c_dd1d;
            let mut edges = Vec::new();
            while (edges.len() as i64) < m {
                seed = seed.wrapping_mul(6364136223846793005).wrapping_add(1442695040888963407);
                let pick = (seed >> 33) as usize % all.len();
                edges.push(all.swap_remove(pick));
            }
            out.graph = Some(Raw { n, directed, edges });
        }
        Call::Barabasi { n, m, directed, .. } => {
            if n < 0 || m < 0 {
                return EINVAL;
            }
            let mut edges = Vec::new();
            for i in 1..n {
                for k in 0..m.min(i) {
                    edges.push((i, i - 1 - k));
                }
            }
            out.graph = Some(Raw { n, directed, edges });
        }
        Call::Neighbors { vid, mode, .. } => {
            let g = this.as_deref().unwrap();
            if !in_range(g, &[vid]) {
                return EINVVID;
            }
            let mut neis = mode_adjacency(g, mode)[vid as usize].clone();
            neis.sort();
            stores[0] = Store::Ints(neis);
        }
        Call::Degree { mode, loops } => {
            let g = this.as_deref().unwrap();
            let mut degree = vec![0i64; g.n as usize];
            for &(a, b) in &g.edges {
                if a == b {
                    degree[a as usize] += match loops {
                        0 => 0,
                        1 => 2,
                        _ => 1,
                    };
                } else if !g.directed || mode == 3 {
                    degree[a as usize] += 1;
                    degree[b as usize] += 1;
                } else if mode == 1 {
                    degree[a as usize] += 1;
                } else {
                    degree[b as usize] += 1;
                }
            }
            stores[0] = Store::Ints(degree);
        }
        Call::Edge { eid } => {
            let g = this.as_deref().unwrap();
            if eid < 0 || eid as usize >= g.edges.len() {
                return EINVEID;
            }
            let (from, to) = g.edges[eid as usize];
            out.ints = vec![from, to];
        }
        Call::AreAdjacent { v1, v2 } => {
            let g = this.as_deref().unwrap();
            if !in_range(g, &[v1, v2]) {
                return EINVVID;
            }
            let joined = g.edges.iter().any(|&(a, b)| {
                (a, b) == (v1, v2) || (!g.directed && (a, b) == (v2, v1))
            });
            out.flags = vec![joined];
        }
        Call::GetEdgelist { .. } => {
            let g = this.as_deref().unwrap();
            stores[0] = Store::Ints(g.edges.iter().flat_map(|&(a, b)| [a, b]).collect());
        }
        Call::AddVertices { n } => {
            if n < 0 {
                return EINVAL;
            }
            this.as_deref_mut().unwrap().n += n;
        }
        Call::AddEdges => {
            let flat = ints(stores, 0);
            let g = this.as_deref_mut().unwrap();
            if flat.len() % 2 != 0 {
                return EINVAL;
            }
            if !in_range(g, &flat) {
                return EINVVID;
            }
            g.edges.extend(flat.chunks(2).map(|c| (c[0], c[1])));
        }
        Call::DeleteVertices => {
            let gone = ints(stores, 0);
            let g = this.as_deref_mut().unwrap();
            if !in_range(g, &gone) {
                return EINVVID;
            }
            let kept: Vec<i64> = (0..g.n).filter(|v| !gone.contains(v)).collect();
            let renumber = |v: i64| kept.iter().position(|&k| k == v).map(|p| p as i64);
            g.edges = g
                .edges
                .iter()
                .filter_map(|&(a, b)| Some((renumber(a)?, renumber(b)?)))
                .collect();
            g.n = kept.len() as i64;
        }
        Call::DeleteEdges => {
            let gone = ints(stores, 0);
            let g = this.as_deref_mut().unwrap();
            if gone.iter().any(|&e| e < 0 || e as usize >= g.edges.len()) {
                return EINVEID;
            }
            let mut at = 0;
            g.edges.retain(|_| {
                at += 1;
                !gone.contains(&(at - 1))
            });
        }
        Call::Simplify { remove_multiple, remove_loops } => {
            let g = this.as_deref_mut().unwrap();
            let directed = g.directed;
            let mut seen = BTreeSet::new();
            g.edges.retain(|&(a, b)| {
                if remove_loops && a == b {
                    return false;
                }
                let key = if directed { (a, b) } else { unordered(a, b) };
                !remove_multiple || seen.insert(key)
            });
        }
        Call::ToDirected { mode } => {
            let g = this.as_deref_mut().unwrap();
            if !g.directed {
                if mode == 1 {
                    g.edges = g.edges.iter().flat_map(|&(a, b)| [(a, b), (b, a)]).collect();
                } else if mode != 0 {
                    g.edges = g.edges.iter().map(|&(a, b)| unordered(a, b)).collect();
                }
                g.directed = true;
            }
        }
        Call::ToUndirected { mode } => {
            let g = this.as_deref_mut().unwrap();
            if g.directed {
                if mode == 1 {
                    let set: BTreeSet<(i64, i64)> =
                        g.edges.iter().map(|&(a, b)| unordered(a, b)).collect();
                    g.edges = set.into_iter().collect();
                } else if mode == 2 {
                    let all: BTreeSet<(i64, i64)> = g.edges.iter().copied().collect();
                    let set: BTreeSet<(i64, i64)> = g
                        .edges
                        .iter()
                        .filter(|&&(a, b)| all.contains(&(b, a)))
                        .map(|&(a, b)| unordered(a, b))
                        .collect();
                    g.edges = set.into_iter().collect();
                }
                g.directed = false;
            }
        }
        Call::InducedSubgraph { .. } => {
            let vids = ints(stores, 0);
            let g = this.as_deref().unwrap();
            if !in_range(g, &vids) {
                return EINVVID;
            }
            let mut kept = vids.clone();
            kept.sort();
            kept.dedup();
            let renumber = |v: i64| kept.iter().position(|&k| k == v).map(|p| p as i64);
            let edges = g
                .edges
                .iter()
                .filter_map(|&(a, b)| Some((renumber(a)?, renumber(b)?)))
                .collect();
            out.graph = Some(Raw { n: kept.len() as i64, directed: g.directed, edges });
        }
        Call::Union => {
            let g = this.as_deref().unwrap();
            let h = other.unwrap();
            if g.directed != h.directed {
                return EINVAL;
            }
            let key = |&(a, b): &(i64, i64)| if g.directed { (a, b) } else { unordered(a, b) };
            let set: BTreeSet<(i64, i64)> = g.edges.iter().chain(h.edges.iter()).map(key).collect();
            out.graph = Some(Raw {
                n: g.n.max(h.n),
                directed: g.directed,
                edges: set.into_iter().collect(),
            });
        }
        Call::Distances { mode } => {
            let g = this.as_deref().unwrap();
            let adj = mode_adjacency(g, mode);
            let n = g.n as usize;
            let mut data = vec![0.0; n * n];
            for from in 0..n {
                let dist = bfs(&adj, from);
                for to in 0..n {
                    data[to * n + from] = dist[to];
                }
            }
            stores[0] = Store::Matrix { nrow: g.n, ncol: g.n, data };
        }
        Call::Diameter { directed, .. } => {
            let g = this.as_deref().unwrap();
            let adj = if directed { adjacency(g, true, false) } else { adjacency(g, true, true) };
            let mut longest = 0.0f64;
            for from in 0..g.n as usize {
                for d in bfs(&adj, from) {
                    if d.is_finite() {
                        longest = longest.max(d);
                    }
                }
            }
            out.reals = vec![longest];
        }
        Call::Betweenness { directed, .. } => {
            stores[0] = Store::Reals(betweenness(this.as_deref().unwrap(), directed));
        }
        Call::Closeness { mode, .. } => {
            let g = this.as_deref().unwrap();
            let adj = mode_adjacency(g, mode);
            let mut closeness = Vec::new();
            for from in 0..g.n as usize {
                let reached: Vec<f64> =
                    bfs(&adj, from).into_iter().filter(|d| d.is_finite() && *d > 0.0).collect();
                let total: f64 = reached.iter().sum();
                closeness.push(if reached.is_empty() { f64::NAN } else { reached.len() as f64 / total });
            }
            stores[0] = Store::Reals(closeness);
        }
        Call::Pagerank { damping, .. } => {
            let g = this.as_deref().unwrap();
            stores[0] = Store::Reals(pagerank(g, f64::from_bits(damping.to_bits())));
            out.reals = vec![1.0];
        }
        Call::IsConnected { .. } => {
            let g = this.as_deref().unwrap();
            out.flags = vec![components(g).1.len() == 1];
        }
        Call::ConnectedComponents { .. } => {
            let (membership, sizes) = components(this.as_deref().unwrap());
            out.ints = vec![sizes.len() as i64];
            stores[0] = Store::Ints(membership);
            stores[1] = Store::Ints(sizes);
        }
        Call::CommunityLeiden { .. } => {
            let (membership, sizes) = components(this.as_deref().unwrap());
            stores[0] = Store::Ints(membership);
            out.ints = vec![sizes.len() as i64];
            out.reals = vec![0.0];
        }
        Call::CommunityLabelPropagation { .. } => {
            stores[0] = Store::Ints(components(this.as_deref().unwrap()).0);
        }
        Call::CommunityFastgreedy => {
            let g = this.as_deref().unwrap();
            let (membership, sizes) = components(g);
            stores[0] = Store::Ints(membership);
            stores[1] = Store::Reals(vec![0.0; g.n as usize - sizes.len() + 1]);
        }
        Call::GetSubisomorphismsVf2 => {
            // Only the mapping of a graph onto itself is known to the stand-in.
            let g = this.as_deref().unwrap();
            if other != Some(g) {
                return UNIMPLEMENTED;
            }
            stores[0] = Store::Lists(vec![(0..g.n).collect()]);
        }
        Call::ErdosRenyiGnp { .. } | Call::CountSubisomorphismsVf2 => return UNIMPLEMENTED,
    }
    0
}

fn allocate(container: Container) -> Store {
    match container {
        Container::IntVector { size } => Store::Ints(vec![0; size as usize]),
        Container::RealVector { size } => Store::Reals(vec![0.0; size as usize]),
        Container::Matrix { nrow, ncol } => {
            Store::Matrix { nrow, ncol, data: vec![0.0; (nrow * ncol) as usize] }
        }
        Container::IntVectorList { size } => Store::Lists(vec![Vec::new(); size as usize]),
    }
}

// Performs the calls that an operation names, one by one, and reports each
// answer back to it.
fn drive(
    engine: &mut Engine,
    mut op: Operation,
    mut this: Option<&mut Raw>,
    other: Option<&Raw>,
    name: &str,
) -> (Operation, Result<Outputs, Error>) {
    let mut slots: Vec<Option<Store>> = Vec::new();
    let mut working = Outputs::default();
    let mut collected = Outputs::default();
    loop {
        let action = op.action();
        engine.log.push(action);
        let status = match action {
            Action::Init { slot, container } => match engine.injected() {
                Some(status) => status,
                None => {
                    assert_eq!(slot, slots.len());
                    slots.push(Some(allocate(container)));
                    engine.inits += 1;
                    0
                }
            },
            Action::Append { slot, value } => match engine.injected() {
                Some(status) => status,
                None => {
                    match slots[slot].as_mut() {
                        Some(Store::Ints(v)) => v.push(value),
                        _ => panic!("append to what is not a live integer vector"),
                    }
                    0
                }
            },
            Action::Invoke { call } => match engine.injected() {
                Some(status) => status,
                None => {
                    let mut stores: Vec<Store> =
                        slots.iter().map(|s| s.clone().expect("container in use")).collect();
                    let status =
                        invoke(call, this.as_deref_mut(), other, name, &mut stores, &mut working);
                    slots = stores.into_iter().map(Some).collect();
                    status
                }
            },
            Action::Collect => {
                collected = std::mem::take(&mut working);
                collected.stores =
                    slots.iter().map(|s| s.clone().expect("container in use")).collect();
                0
            }
            Action::Destroy { slot } => {
                assert!(slots[slot].take().is_some(), "destroyed twice or never live");
                engine.destroys += 1;
                0
            }
            Action::Done { result } => {
                assert!(op.is_done());
                assert!(slots.iter().all(|s| s.is_none()), "a container leaked");
                return (op, result.map(|()| collected));
            }
        };
        op.advance(status);
    }
}

// ---------------------------------------------------------------------------
// Conversion of results to host values, through the library's containers
// ---------------------------------------------------------------------------

fn as_real(x: f64) -> Real {
    Real::from_bits(x.to_bits())
}

fn as_f64(r: Real) -> f64 {
    f64::from_bits(r.to_bits())
}

fn int_vector(store: &Store) -> VectorInt {
    match store {
        Store::Ints(v) => VectorInt::read(v.len() as i64, |i| v[i as usize]).unwrap(),
        _ => panic!("not an integer vector"),
    }
}

fn real_vector(store: &Store) -> Vec<f64> {
    match store {
        Store::Reals(v) => {
            let image = Vector::read(v.len() as i64, |i| as_real(v[i as usize])).unwrap();
            image.to_vec().into_iter().map(as_f64).collect()
        }
        _ => panic!("not a real vector"),
    }
}

fn matrix(store: &Store) -> Matrix {
    match store {
        Store::Matrix { nrow, ncol, data } => {
            Matrix::read(*nrow, *ncol, |r, c| as_real(data[(c * nrow + r) as usize])).unwrap()
        }
        _ => panic!("not a matrix"),
    }
}

fn list(store: &Store) -> VectorIntList {
    match store {
        Store::Lists(items) => VectorIntList::read(
            items.len() as i64,
            |i| items[i as usize].len() as i64,
            |i, pos| items[i as usize][pos as usize],
        )
        .unwrap(),
        _ => panic!("not a list"),
    }
}

// ---------------------------------------------------------------------------
// A graph as a user of the boundary sees it
// ---------------------------------------------------------------------------

struct Graph {
    core: igraph::Graph,
    raw: Raw,
}

type Res<T> = Result<T, Error>;

impl Graph {
    fn construct(op: Operation, this: Option<&mut Raw>, other: Option<&Raw>, name: &str) -> Res<Graph> {
        let mut engine = Engine::new();
        let (op, outputs) = drive(&mut engine, op, this, other, name);
        assert!(op.call().is_constructor());
        let core = igraph::Graph::init_with(op)?;
        let raw = outputs?.graph.expect("the call made a graph");
        Ok(Graph { core, raw })
    }

    fn empty(n: i64, directed: bool) -> Res<Graph> {
        Graph::construct(igraph::Graph::empty(n, directed), None, None, "")
    }

    fn from_edges(edges: &[(i64, i64)], n: i64, directed: bool) -> Res<Graph> {
        Graph::construct(igraph::Graph::from_edges(edges, n, directed), None, None, "")
    }

    fn famous(name: &str) -> Res<Graph> {
        Graph::construct(igraph::Graph::famous(name)?, None, None, name)
    }

    fn ring(n: i64, directed: bool, mutual: bool, circular: bool) -> Res<Graph> {
        Graph::construct(igraph::Graph::ring(n, directed, mutual, circular), None, None, "")
    }

    fn star(n: i64, mode: StarMode, center: i64) -> Res<Graph> {
        Graph::construct(igraph::Graph::star(n, mode, center), None, None, "")
    }

    fn full(n: i64, directed: bool, loops: bool) -> Res<Graph> {
        Graph::construct(igraph::Graph::full(n, directed, loops), None, None, "")
    }

    fn kary_tree(n: i64, children: i64, mode: TreeMode) -> Res<Graph> {
        Graph::construct(igraph::Graph::kary_tree(n, children, mode), None, None, "")
    }

    fn erdos_renyi_gnp(n: i64, p: f64, directed: bool, loops: bool) -> Res<Graph> {
        Graph::construct(igraph::Graph::erdos_renyi_gnp(n, as_real(p), directed, loops), None, None, "")
    }

    fn erdos_renyi_gnm(n: i64, m: i64, directed: bool, loops: bool) -> Res<Graph> {
        Graph::construct(igraph::Graph::erdos_renyi_gnm(n, m, directed, loops), None, None, "")
    }

    fn barabasi(n: i64, m: i64, directed: bool) -> Res<Graph> {
        Graph::construct(igraph::Graph::barabasi(n, m, directed), None, None, "")
    }

    fn ask(&self, query: Query) -> i64 {
        match query {
            Query::Vcount => self.raw.n,
            Query::Ecount => self.raw.edges.len() as i64,
            Query::IsDirected => self.raw.directed as i64,
        }
    }

    fn vcount(&self) -> i64 {
        assert!(self.core.is_live());
        self.ask(self.core.vcount())
    }

    fn ecount(&self) -> i64 {
        assert!(self.core.is_live());
        self.ask(self.core.ecount())
    }

    fn is_directed(&self) -> bool {
        assert!(self.core.is_live());
        self.ask(self.core.is_directed()) != 0
    }

    fn read(&self, op: Operation) -> Res<Outputs> {
        let mut raw = self.raw.clone();
        let (_, outputs) = drive(&mut Engine::new(), op, Some(&mut raw), None, "");
        assert_eq!(raw, self.raw);
        outputs
    }

    fn write(&mut self, op: Operation) -> Res<()> {
        drive(&mut Engine::new(), op, Some(&mut self.raw), None, "").1.map(|_| ())
    }

    fn neighbors(&self, vid: i64, mode: NeighborMode) -> Res<Vec<i64>> {
        let out = self.read(self.core.neighbors(vid, mode))?;
        Ok(int_vector(&out.stores[0]).to_vec())
    }

    fn degree(&self, mode: NeighborMode, loops: Loops) -> Res<Vec<i64>> {
        let out = self.read(self.core.degree(mode, loops))?;
        Ok(int_vector(&out.stores[0]).to_vec())
    }

    fn edge(&self, eid: i64) -> Res<(i64, i64)> {
        let out = self.read(self.core.edge(eid))?;
        Ok((out.ints[0], out.ints[1]))
    }

    fn are_adjacent(&self, v1: i64, v2: i64) -> Res<bool> {
        Ok(self.read(self.core.are_adjacent(v1, v2))?.flags[0])
    }

    fn get_edgelist(&self) -> Res<Vec<(i64, i64)>> {
        let out = self.read(self.core.get_edgelist())?;
        Ok(igraph::Graph::edges(&int_vector(&out.stores[0])))
    }

    fn add_vertices(&mut self, n: i64) -> Res<()> {
        let op = self.core.add_vertices(n);
        self.write(op)
    }

    fn add_edges(&mut self, edges: &[(i64, i64)]) -> Res<()> {
        let op = self.core.add_edges(edges);
        self.write(op)
    }

    fn delete_vertices(&mut self, vids: &[i64]) -> Res<()> {
        let op = self.core.delete_vertices(vids);
        self.write(op)
    }

    fn delete_edges(&mut self, eids: &[i64]) -> Res<()> {
        let op = self.core.delete_edges(eids);
        self.write(op)
    }

    fn simplify(&mut self, remove_multiple: bool, remove_loops: bool) -> Res<()> {
        let op = self.core.simplify(remove_multiple, remove_loops);
        self.write(op)
    }

    fn to_directed(&mut self, mode: ToDirectedMode) -> Res<()> {
        let op = self.core.to_directed(mode);
        self.write(op)
    }

    fn to_undirected(&mut self, mode: ToUndirectedMode) -> Res<()> {
        let op = self.core.to_undirected(mode);
        self.write(op)
    }

    fn induced_subgraph(&self, vids: &[i64]) -> Res<Graph> {
        let mut raw = self.raw.clone();
        Graph::construct(self.core.induced_subgraph(vids), Some(&mut raw), None, "")
    }

    fn union(&self, other: &Graph) -> Res<Graph> {
        let mut raw = self.raw.clone();
        Graph::construct(self.core.union(&other.core), Some(&mut raw), Some(&other.raw), "")
    }

    fn distances(&self, mode: NeighborMode) -> Res<Vec<Vec<f64>>> {
        let out = self.read(self.core.distances(self.vcount(), mode))?;
        let rows = matrix(&out.stores[0]).to_vec_of_vecs();
        Ok(rows.into_iter().map(|row| row.into_iter().map(as_f64).collect()).collect())
    }

    fn diameter(&self, directed: bool) -> Res<f64> {
        Ok(self.read(self.core.diameter(directed))?.reals[0])
    }

    fn betweenness(&self, directed: bool) -> Res<Vec<f64>> {
        Ok(real_vector(&self.read(self.core.betweenness(directed))?.stores[0]))
    }

    fn closeness(&self, mode: NeighborMode) -> Res<Vec<f64>> {
        Ok(real_vector(&self.read(self.core.closeness(mode))?.stores[0]))
    }

    fn pagerank(&self, damping: f64) -> Res<Vec<f64>> {
        Ok(real_vector(&self.read(self.core.pagerank(as_real(damping)))?.stores[0]))
    }

    fn is_connected(&self, mode: Connectedness) -> Res<bool> {
        Ok(self.read(self.core.is_connected(mode))?.flags[0])
    }

    fn connected_components(&self, mode: Connectedness) -> Res<(Vec<i64>, Vec<i64>, i64)> {
        let out = self.read(self.core.connected_components(mode))?;
        Ok((int_vector(&out.stores[0]).to_vec(), int_vector(&out.stores[1]).to_vec(), out.ints[0]))
    }

    fn count_subisomorphisms_vf2(&self, pattern: &Graph) -> Res<i64> {
        let op = self.core.count_subisomorphisms_vf2(&pattern.core);
        let mut raw = self.raw.clone();
        let out = drive(&mut Engine::new(), op, Some(&mut raw), Some(&pattern.raw), "").1?;
        Ok(out.ints[0])
    }

    fn get_subisomorphisms_vf2(&self, pattern: &Graph) -> Res<Vec<Vec<i64>>> {
        let op = self.core.get_subisomorphisms_vf2(&pattern.core);
        let mut raw = self.raw.clone();
        let out = drive(&mut Engine::new(), op, Some(&mut raw), Some(&pattern.raw), "").1?;
        Ok(list(&out.stores[0]).to_vec_of_vecs())
    }

    fn community_leiden(&self, resolution: f64) -> Res<(Vec<i64>, i64, f64)> {
        let out = self.read(self.core.community_leiden(as_real(resolution)))?;
        Ok((int_vector(&out.stores[0]).to_vec(), out.ints[0], out.reals[0]))
    }

    fn community_label_propagation(&self) -> Res<Vec<i64>> {
        let out = self.read(self.core.community_label_propagation())?;
        Ok(int_vector(&out.stores[0]).to_vec())
    }

    fn community_fastgreedy(&self) -> Res<(Vec<i64>, Vec<f64>)> {
        let out = self.read(self.core.community_fastgreedy())?;
        Ok((int_vector(&out.stores[0]).to_vec(), real_vector(&out.stores[1])))
    }
}

// === Foundation tests ===

#[test]
fn test_vector_int_roundtrip() {
    let data = vec![1i64, 2, 3, 4, 5];
    let v = VectorInt::from_slice(&data).unwrap();
    assert_eq!(v.len(), 5);
    assert_eq!(v.to_vec(), data);
}

#[test]
fn test_vector_int_empty() {
    let v = VectorInt::new().unwrap();
    assert!(v.is_empty());
    assert_eq!(v.len(), 0);
}

#[test]
fn test_vector_f64_roundtrip() {
    let data = vec![1.0, 2.5, 3.0];
    let reals: Vec<Real> = data.iter().map(|&x| as_real(x)).collect();
    let v = Vector::from_slice(&reals).unwrap();
    assert_eq!(v.len(), 3);
    let back: Vec<f64> = v.to_vec().into_iter().map(as_f64).collect();
    assert_eq!(back, data);
}

#[test]
fn test_matrix_dimensions() {
    let m = Matrix::new(3, 4).unwrap();
    assert_eq!(m.nrow(), 3);
    assert_eq!(m.ncol(), 4);
}

// === Graph construction tests ===

#[test]
fn test_empty_graph() {
    let g = Graph::empty(5, false).unwrap();
    assert_eq!(g.vcount(), 5);
    assert_eq!(g.ecount(), 0);
    assert!(!g.is_directed());
}

#[test]
fn test_empty_directed_graph() {
    let g = Graph::empty(3, true).unwrap();
    assert_eq!(g.vcount(), 3);
    assert!(g.is_directed());
}

#[test]
fn test_from_edges() {
    let g = Graph::from_edges(&[(0, 1), (1, 2), (2, 0)], 3, false).unwrap();
    assert_eq!(g.vcount(), 3);
    assert_eq!(g.ecount(), 3);
    assert!(!g.is_directed());
}

#[test]
fn test_from_edges_directed() {
    let g = Graph::from_edges(&[(0, 1), (1, 2)], 3, true).unwrap();
    assert_eq!(g.vcount(), 3);
    assert_eq!(g.ecount(), 2);
    assert!(g.is_directed());
}

// === Graph query tests ===

#[test]
fn test_neighbors() {
    let g = Graph::from_edges(&[(0, 1), (0, 2), (1, 2)], 3, false).unwrap();
    let mut neis = g.neighbors(0, NeighborMode::All).unwrap();
    neis.sort();
    assert_eq!(neis, vec![1, 2]);
}

#[test]
fn test_degree() {
    let g = Graph::from_edges(&[(0, 1), (0, 2), (1, 2)], 3, false).unwrap();
    let deg = g.degree(NeighborMode::All, Loops::Twice).unwrap();
    assert_eq!(deg, vec![2, 2, 2]);
}

#[test]
fn test_edge() {
    let g = Graph::from_edges(&[(0, 1), (2, 3)], 4, false).unwrap();
    let (from, to) = g.edge(0).unwrap();
    assert_eq!(from, 0);
    assert_eq!(to, 1);
    let (from, to) = g.edge(1).unwrap();
    assert_eq!(from, 2);
    assert_eq!(to, 3);
}

// === Graph mutation tests ===

#[test]
fn test_add_vertices() {
    let mut g = Graph::empty(5, false).unwrap();
    g.add_vertices(3).unwrap();
    assert_eq!(g.vcount(), 8);
}

#[test]
fn test_add_edges() {
    let mut g = Graph::empty(4, false).unwrap();
    g.add_edges(&[(0, 1), (2, 3)]).unwrap();
    assert_eq!(g.ecount(), 2);
}

// === Generator tests ===

#[test]
fn test_famous_petersen() {
    let g = Graph::famous("Petersen").unwrap();
    assert_eq!(g.vcount(), 10);
    assert_eq!(g.ecount(), 15);
}

#[test]
fn test_ring() {
    let g = Graph::ring(5, false, false, true).unwrap();
    assert_eq!(g.vcount(), 5);
    assert_eq!(g.ecount(), 5);
}

#[test]
fn test_star() {
    let g = Graph::star(6, StarMode::Undirected, 0).unwrap();
    assert_eq!(g.vcount(), 6);
    assert_eq!(g.ecount(), 5);
}

#[test]
fn test_full() {
    let g = Graph::full(5, false, false).unwrap();
    assert_eq!(g.vcount(), 5);
    assert_eq!(g.ecount(), 10); // C(5,2) = 10
}

#[test]
fn test_kary_tree() {
    let g = Graph::kary_tree(7, 2, TreeMode::Undirected).unwrap();
    assert_eq!(g.vcount(), 7);
    assert_eq!(g.ecount(), 6);
}

#[test]
fn test_erdos_renyi_gnm() {
    let g = Graph::erdos_renyi_gnm(100, 200, false, false).unwrap();
    assert_eq!(g.vcount(), 100);
    assert_eq!(g.ecount(), 200);
}

#[test]
fn test_barabasi() {
    let g = Graph::barabasi(100, 2, false).unwrap();
    assert_eq!(g.vcount(), 100);
    assert!(g.ecount() > 0);
}

// === Path algorithm tests ===

#[test]
fn test_distances() {
    let g = Graph::from_edges(&[(0, 1), (1, 2), (2, 3)], 4, false).unwrap();
    let dist = g.distances(NeighborMode::All).unwrap();
    assert_eq!(dist[0][0], 0.0);
    assert_eq!(dist[0][1], 1.0);
    assert_eq!(dist[0][2], 2.0);
    assert_eq!(dist[0][3], 3.0);
}

#[test]
fn test_diameter() {
    let g = Graph::from_edges(&[(0, 1), (1, 2), (2, 3)], 4, false).unwrap();
    let d = g.diameter(false).unwrap();
    assert_eq!(d, 3.0);
}

// === Centrality tests ===

#[test]
fn test_betweenness() {
    let g = Graph::from_edges(&[(0, 1), (1, 2), (2, 3)], 4, false).unwrap();
    let bt = g.betweenness(false).unwrap();
    assert_eq!(bt.len(), 4);
    // Middle vertices should have higher betweenness
    assert!(bt[1] > bt[0]);
    assert!(bt[2] > bt[3]);
}

#[test]
fn test_closeness() {
    let g = Graph::full(5, false, false).unwrap();
    let cl = g.closeness(NeighborMode::All).unwrap();
    assert_eq!(cl.len(), 5);
    // In a complete graph, all closeness values are equal
    for c in &cl {
        assert!((c - cl[0]).abs() < 1e-10);
    }
}

#[test]
fn test_pagerank() {
    let g = Graph::full(5, false, false).unwrap();
    let pr = g.pagerank(0.85).unwrap();
    assert_eq!(pr.len(), 5);
    let sum: f64 = pr.iter().sum();
    assert!((sum - 1.0).abs() < 1e-6);
}

// === Component tests ===

#[test]
fn test_is_connected() {
    let g = Graph::full(5, false, false).unwrap();
    assert!(g.is_connected(Connectedness::Weak).unwrap());
}

#[test]
fn test_is_disconnected() {
    let g = Graph::empty(5, false).unwrap();
    assert!(!g.is_connected(Connectedness::Weak).unwrap());
}

#[test]
fn test_connected_components() {
    // Two separate triangles
    let g = Graph::from_edges(&[(0, 1), (1, 2), (2, 0), (3, 4), (4, 5), (5, 3)], 6, false).unwrap();
    let (membership, csize, no) = g.connected_components(Connectedness::Weak).unwrap();
    assert_eq!(no, 2);
    assert_eq!(membership.len(), 6);
    assert_eq!(csize.len(), 2);
    // Vertices 0,1,2 should be in same component
    assert_eq!(membership[0], membership[1]);
    assert_eq!(membership[1], membership[2]);
    // Vertices 3,4,5 in another
    assert_eq!(membership[3], membership[4]);
    assert_eq!(membership[4], membership[5]);
    assert_ne!(membership[0], membership[3]);
}

// === Community detection tests ===

#[test]
fn test_community_leiden() {
    let g = Graph::famous("Zachary").unwrap();
    let (membership, nb_clusters, _quality) = g.community_leiden(1.0).unwrap();
    assert_eq!(membership.len() as i64, g.vcount());
    assert!(nb_clusters >= 1);
}

#[test]
fn test_community_label_propagation() {
    let g = Graph::famous("Zachary").unwrap();
    let membership = g.community_label_propagation().unwrap();
    assert_eq!(membership.len() as i64, g.vcount());
}

#[test]
fn test_community_fastgreedy() {
    let g = Graph::famous("Zachary").unwrap();
    let (membership, modularity) = g.community_fastgreedy().unwrap();
    assert_eq!(membership.len() as i64, g.vcount());
    assert!(!modularity.is_empty());
}

// === Transformation tests ===

#[test]
fn test_simplify() {
    let mut g = Graph::from_edges(&[(0, 1), (0, 1), (1, 1)], 2, false).unwrap();
    assert_eq!(g.ecount(), 3);
    g.simplify(true, true).unwrap();
    assert_eq!(g.ecount(), 1);
}

#[test]
fn test_to_directed() {
    let mut g = Graph::from_edges(&[(0, 1), (1, 2)], 3, false).unwrap();
    assert!(!g.is_directed());
    g.to_directed(ToDirectedMode::Mutual).unwrap();
    assert!(g.is_directed());
    assert_eq!(g.ecount(), 4); // each undirected edge becomes 2 directed
}

#[test]
fn test_to_undirected() {
    let mut g = Graph::from_edges(&[(0, 1), (1, 0), (1, 2)], 3, true).unwrap();
    assert!(g.is_directed());
    g.to_undirected(ToUndirectedMode::Collapse).unwrap();
    assert!(!g.is_directed());
}

#[test]
fn test_induced_subgraph() {
    let g = Graph::full(5, false, false).unwrap();
    let sub = g.induced_subgraph(&[0, 1, 2]).unwrap();
    assert_eq!(sub.vcount(), 3);
    assert_eq!(sub.ecount(), 3); // C(3,2) = 3
}

// === Full workflow integration test ===

#[test]
fn test_full_workflow() {
    // Create a graph
    let mut g = Graph::empty(3, false).unwrap();

    // Add vertices and edges
    g.add_vertices(2).unwrap();
    g.add_edges(&[(0, 1), (1, 2), (2, 3), (3, 4), (4, 0)])
        .unwrap();

    // Query properties
    assert_eq!(g.vcount(), 5);
    assert_eq!(g.ecount(), 5);
    assert!(!g.is_directed());

    // Check connectivity
    assert!(g.is_connected(Connectedness::Weak).unwrap());

    // Compute centrality
    let bt = g.betweenness(false).unwrap();
    assert_eq!(bt.len(), 5);

    // Compute PageRank
    let pr = g.pagerank(0.85).unwrap();
    let sum: f64 = pr.iter().sum();
    assert!((sum - 1.0).abs() < 1e-6);

    // Get distances
    let dist = g.distances(NeighborMode::All).unwrap();
    assert_eq!(dist.len(), 5);

    // Compute diameter
    let d = g.diameter(false).unwrap();
    assert!(d > 0.0);

    // Create induced subgraph
    let sub = g.induced_subgraph(&[0, 1, 2]).unwrap();
    assert_eq!(sub.vcount(), 3);
}

// === Graphs without vertices, and larger empty graphs ===

#[test]
fn empty_directed_zero_vertices() {
    let g = Graph::empty(0, true).unwrap();
    assert_eq!(g.vcount(), 0);
    assert_eq!(g.ecount(), 0);
    assert!(g.is_directed());
}

#[test]
fn empty_undirected_zero_vertices() {
    let g = Graph::empty(0, false).unwrap();
    assert_eq!(g.vcount(), 0);
    assert_eq!(g.ecount(), 0);
    assert!(!g.is_directed());
}

#[test]
fn empty_directed_20_vertices() {
    let g = Graph::empty(20, true).unwrap();
    assert_eq!(g.vcount(), 20);
    assert_eq!(g.ecount(), 0);
    assert!(g.is_directed());
}

#[test]
fn empty_undirected_30_vertices() {
    let g = Graph::empty(30, false).unwrap();
    assert_eq!(g.vcount(), 30);
    assert_eq!(g.ecount(), 0);
    assert!(!g.is_directed());
}

// === Further operations ===

#[test]
fn subgraph_leaves_its_source_alone() {
    let g = Graph::full(5, false, false).unwrap();
    {
        let mut sub = g.induced_subgraph(&[0, 1, 2]).unwrap();
        assert_eq!(sub.vcount(), 3);
        assert_eq!(sub.ecount(), 3);
        assert!(sub.core.release());
        assert!(!sub.core.is_live());
    }
    assert!(g.core.is_live());
    assert_eq!(g.vcount(), 5);
    assert_eq!(g.ecount(), 10);
}

#[test]
fn union_of_two_paths() {
    let a = Graph::from_edges(&[(0, 1), (1, 2)], 3, false).unwrap();
    let b = Graph::from_edges(&[(1, 2), (2, 3)], 4, false).unwrap();
    let u = a.union(&b).unwrap();
    assert_eq!(u.vcount(), 4);
    assert_eq!(u.ecount(), 3);
    assert_eq!(a.ecount(), 2);
    assert_eq!(b.ecount(), 2);
}

#[test]
fn edge_list_comes_back_as_pairs() {
    let edges = [(0, 1), (2, 3), (3, 0)];
    let g = Graph::from_edges(&edges, 4, true).unwrap();
    assert_eq!(g.get_edgelist().unwrap(), edges.to_vec());
    assert!(g.are_adjacent(2, 3).unwrap());
    assert!(!g.are_adjacent(3, 2).unwrap());
}

#[test]
fn deleting_vertices_and_edges() {
    let mut g = Graph::full(4, false, false).unwrap();
    g.delete_edges(&[0]).unwrap();
    assert_eq!(g.ecount(), 5);
    g.delete_vertices(&[3]).unwrap();
    assert_eq!(g.vcount(), 3);
    assert_eq!(g.ecount(), 2);
}

#[test]
fn failures_of_the_engine_are_typed() {
    let g = Graph::empty(3, false).unwrap();
    assert_eq!(g.neighbors(7, NeighborMode::All).err(), Some(Error::InvalidVertexId));
    assert_eq!(g.edge(0).err(), Some(Error::InvalidEdgeId));
    assert_eq!(Graph::empty(-1, false).err(), Some(Error::InvalidValue));
    assert_eq!(Graph::famous("Nobody").err(), Some(Error::InvalidValue));
    assert_eq!(g.count_subisomorphisms_vf2(&g).err(), Some(Error::Unimplemented));
    assert_eq!(Graph::erdos_renyi_gnp(5, 0.5, false, false).err(), Some(Error::Unimplemented));
    assert_eq!(g.get_subisomorphisms_vf2(&g).unwrap(), vec![vec![0, 1, 2]]);
}

#[test]
fn name_with_zero_byte_never_reaches_the_engine() {
    assert_eq!(igraph::Graph::famous("Peter\0sen").err(), Some(Error::InvalidValue));
    assert_eq!(igraph::Graph::famous("\0").err(), Some(Error::InvalidValue));
    assert!(igraph::Graph::famous("").is_ok());
    let op = igraph::Graph::famous("Petersen").unwrap();
    assert_eq!(op.action(), Action::Invoke { call: Call::Famous });
}

// === Counting what the engine is asked to do ===

#[test]
fn every_container_is_destroyed_once() {
    let g = Graph::from_edges(&[(0, 1), (1, 2), (2, 0), (3, 4)], 5, false).unwrap();
    let mut engine = Engine::new();
    let mut raw = g.raw.clone();
    let op = g.core.connected_components(Connectedness::Weak);
    let (_, out) = drive(&mut engine, op, Some(&mut raw), None, "");
    assert!(out.is_ok());
    assert_eq!(engine.inits, 2);
    assert_eq!(engine.destroys, 2);
    assert_eq!(
        engine.log,
        vec![
            Action::Init { slot: 0, container: Container::IntVector { size: 0 } },
            Action::Init { slot: 1, container: Container::IntVector { size: 0 } },
            Action::Invoke { call: Call::ConnectedComponents { mode: 1 } },
            Action::Collect,
            Action::Destroy { slot: 1 },
            Action::Destroy { slot: 0 },
            Action::Done { result: Ok(()) },
        ]
    );
}

#[test]
fn failed_allocation_destroys_nothing() {
    let g = Graph::empty(3, false).unwrap();
    let mut engine = Engine::failing(0, 2);
    let mut raw = g.raw.clone();
    let (_, out) = drive(&mut engine, g.core.neighbors(0, NeighborMode::All), Some(&mut raw), None, "");
    assert_eq!(out.err(), Some(Error::NoMemory));
    assert_eq!(engine.inits, 0);
    assert_eq!(engine.destroys, 0);
    assert_eq!(
        engine.log,
        vec![
            Action::Init { slot: 0, container: Container::IntVector { size: 0 } },
            Action::Done { result: Err(Error::NoMemory) },
        ]
    );
}

#[test]
fn second_allocation_fails_first_is_destroyed() {
    let g = Graph::empty(3, false).unwrap();
    let mut engine = Engine::failing(1, 2);
    let mut raw = g.raw.clone();
    let (_, out) = drive(&mut engine, g.core.community_fastgreedy(), Some(&mut raw), None, "");
    assert_eq!(out.err(), Some(Error::NoMemory));
    assert_eq!(engine.inits, 1);
    assert_eq!(engine.destroys, 1);
    assert_eq!(
        engine.log,
        vec![
            Action::Init { slot: 0, container: Container::IntVector { size: 0 } },
            Action::Init { slot: 1, container: Container::RealVector { size: 0 } },
            Action::Destroy { slot: 0 },
            Action::Done { result: Err(Error::NoMemory) },
        ]
    );
}

#[test]
fn failed_call_still_destroys_the_containers() {
    let g = Graph::empty(3, false).unwrap();
    let mut engine = Engine::failing(1, 13);
    let mut raw = g.raw.clone();
    let (_, out) = drive(&mut engine, g.core.betweenness(false), Some(&mut raw), None, "");
    assert_eq!(out.err(), Some(Error::Interrupted));
    assert_eq!(engine.inits, 1);
    assert_eq!(engine.destroys, 1);
    assert!(!engine.log.contains(&Action::Collect));
}

#[test]
fn failure_on_the_third_of_five_appends() {
    let mut g = Graph::empty(9, false).unwrap();
    let vids = [4, 5, 6, 7, 8];
    // Call 0 allocates the vector; calls 1 to 5 append; call 3 is the third append.
    let mut engine = Engine::failing(3, 2);
    let op = g.core.delete_vertices(&vids);
    let (_, out) = drive(&mut engine, op, Some(&mut g.raw), None, "");
    assert_eq!(out.err(), Some(Error::NoMemory));
    assert_eq!(engine.inits, 1);
    assert_eq!(engine.destroys, 1);
    assert_eq!(
        engine.log,
        vec![
            Action::Init { slot: 0, container: Container::IntVector { size: 0 } },
            Action::Append { slot: 0, value: 4 },
            Action::Append { slot: 0, value: 5 },
            Action::Append { slot: 0, value: 6 },
            Action::Destroy { slot: 0 },
            Action::Done { result: Err(Error::NoMemory) },
        ]
    );
    // The graph was never touched.
    assert_eq!(g.vcount(), 9);
}

#[test]
fn failure_at_each_step_of_an_edge_list() {
    let edges = [(0, 1), (1, 2), (2, 0)];
    let steps = 1 + 2 * edges.len() + 1;
    for at in 0..steps {
        let mut engine = Engine::failing(at, 55);
        let op = igraph::Graph::from_edges(&edges, 3, false);
        let (op, out) = drive(&mut engine, op, None, None, "");
        assert_eq!(out.err(), Some(Error::Overflow));
        assert_eq!(engine.log.len(), at + 1 + engine.destroys + 1);
        assert_eq!(engine.inits, if at == 0 { 0 } else { 1 });
        assert_eq!(engine.destroys, engine.inits);
        assert_eq!(igraph::Graph::init_with(op).err(), Some(Error::Overflow));
    }
    let mut engine = Engine::new();
    let op = igraph::Graph::from_edges(&edges, 3, false);
    let (op, out) = drive(&mut engine, op, None, None, "");
    assert!(out.is_ok());
    assert_eq!((engine.inits, engine.destroys), (1, 1));
    let appended: Vec<i64> = engine
        .log
        .iter()
        .filter_map(|a| match a {
            Action::Append { value, .. } => Some(*value),
            _ => None,
        })
        .collect();
    assert_eq!(appended, vec![0, 1, 1, 2, 2, 0]);
    assert!(igraph::Graph::init_with(op).unwrap().is_live());
}

#[test]
fn unknown_status_is_kept() {
    let mut engine = Engine::failing(0, 4242);
    let (op, out) = drive(&mut engine, igraph::Graph::full(3, false, false), None, None, "");
    assert_eq!(out.err(), Some(Error::Unknown(4242)));
    assert_eq!(op.failure(), Some(Error::Unknown(4242)));
    assert_eq!(igraph::Graph::init_with(op).err(), Some(Error::Unknown(4242)));
}

#[test]
fn a_finished_operation_stays_finished() {
    let mut op = igraph::Graph::empty(1, false);
    op.advance(0);
    op.advance(0);
    assert!(op.is_done());
    let end = op.action();
    op.advance(1);
    op.advance(0);
    assert_eq!(op.action(), end);
    assert_eq!(end, Action::Done { result: Ok(()) });
}

#[test]
fn the_arguments_that_reach_the_engine() {
    let g = Graph::empty(3, false).unwrap();
    assert_eq!(
        g.core.neighbors(2, NeighborMode::Out).call(),
        Call::Neighbors { vid: 2, mode: 1, loops: 1, multiple: true }
    );
    assert_eq!(g.core.degree(NeighborMode::In, Loops::Once).call(), Call::Degree { mode: 2, loops: 2 });
    assert_eq!(g.core.diameter(true).call(), Call::Diameter { directed: true, unconnected: true });
    assert_eq!(
        g.core.pagerank(as_real(0.85)).call(),
        Call::Pagerank { damping: as_real(0.85), directed: true, algorithm: 2 }
    );
    assert_eq!(
        g.core.community_leiden(as_real(1.5)).call(),
        Call::CommunityLeiden { resolution: as_real(1.5), beta: as_real(0.01), start: false, n_iterations: 10 }
    );
    assert_eq!(
        igraph::Graph::barabasi(10, 2, true).call(),
        Call::Barabasi {
            n: 10,
            power: as_real(1.0),
            m: 2,
            outpref: false,
            a: as_real(1.0),
            directed: true,
            algorithm: 1,
        }
    );
    assert_eq!(
        igraph::Graph::erdos_renyi_gnp(10, as_real(0.25), false, true).call(),
        Call::ErdosRenyiGnp { n: 10, p: as_real(0.25), directed: false, edge_types: 1, edge_labeled: false }
    );
    assert_eq!(
        igraph::Graph::erdos_renyi_gnm(10, 7, true, false).call(),
        Call::ErdosRenyiGnm { n: 10, m: 7, directed: true, edge_types: 0, edge_labeled: false }
    );
    assert_eq!(
        g.core.distances(3, NeighborMode::All).action(),
        Action::Init { slot: 0, container: Container::Matrix { nrow: 3, ncol: 3 } }
    );
    assert_eq!(
        g.core.community_label_propagation().call(),
        Call::CommunityLabelPropagation { mode: 3, variant: 2 }
    );
    assert_eq!(
        g.core.induced_subgraph(&[0]).call(),
        Call::InducedSubgraph { implementation: 0 }
    );
}
