//! Clusters: finding one by its ID or name, and listing all of them.
use vstd::prelude::*;
use vstd::string::StringExecFns;

use crate::k8s;
use crate::rancher;
use crate::rancher::Cluster;
use crate::text;

verus! {

/// The text is the ID of a cluster and not the name of one.
pub open spec fn is_cluster_id(cluster: Seq<char>) -> bool {
    cluster == "local"@ || "c-"@.is_prefix_of(cluster)
}

/// The ID of the first cluster of that name; ASCII case makes no difference.
pub open spec fn first_named(clusters: Seq<rancher::ClusterView>, name: Seq<char>) -> Option<
    Seq<char>,
>
    decreases clusters.len(),
{
    if clusters.len() == 0 {
        None
    } else if text::lowered(clusters.first().name) == text::lowered(name) {
        Some(clusters.first().id)
    } else {
        first_named(clusters.drop_first(), name)
    }
}

/// The message for a name that no cluster has.
pub open spec fn unknown_cluster(cluster: Seq<char>) -> Seq<char> {
    "cluster '"@ + cluster + "' not found; use list_clusters to see available clusters"@
}

/// The ID of the cluster of that name, or the message that there is none.
pub open spec fn looked_up(clusters: Seq<rancher::ClusterView>, name: Seq<char>) -> Result<
    Seq<char>,
    Seq<char>,
> {
    match first_named(clusters, name) {
        Some(id) => Ok(id),
        None => Err(unknown_cluster(name)),
    }
}

/// Whether a text is the ID of a cluster (`c-...` or `local`).
pub fn check_cluster_id(cluster: &str) -> (r: bool)
    ensures
        r == is_cluster_id(cluster@),
{
    text::same_text(cluster, "local") || text::starts_with(cluster, "c-")
}

/// Looks up the ID of a cluster by its name.
pub fn look_up_cluster(clusters: &Vec<Cluster>, name: &str) -> (r: Result<String, String>)
    ensures
        k8s::texts_of(r) == looked_up(clusters.deep_view(), name@),
{
    let ghost all = clusters.deep_view();
    let mut i: usize = 0;
    assert(all.skip(0) =~= all);
    while i < clusters.len()
        invariant
            i <= clusters@.len(),
            all == clusters.deep_view(),
            first_named(all.skip(i as int), name@) == first_named(all, name@),
        decreases clusters@.len() - i,
    {
        assert(all.skip(i as int).first() == clusters@[i as int]@);
        assert(all.skip(i as int).drop_first() =~= all.skip(i + 1));
        if text::same_text_ignoring_case(clusters[i].name.as_str(), name) {
            return Ok(clusters[i].id.clone());
        }
        i += 1;
    }
    Err(
        "cluster '".to_string().concat(name).concat(
            "' not found; use list_clusters to see available clusters",
        ),
    )
}

/// One line for a cluster.
pub open spec fn cluster_line(cluster: rancher::ClusterView) -> Seq<char> {
    let state = match cluster.state {
        Some(state) => state,
        None => "unknown"@,
    };
    let description = match cluster.description {
        Some(description) => "("@ + description + ")"@,
        None => Seq::empty(),
    };
    "- id="@ + cluster.id + " name="@ + cluster.name + " state="@ + state + " "@ + description
}

/// The list of clusters as text.
pub open spec fn clusters_text(clusters: Seq<rancher::ClusterView>) -> Seq<char> {
    if clusters.len() == 0 {
        "No clusters found."@
    } else {
        text::joined(
            clusters.map_values(|cluster: rancher::ClusterView| cluster_line(cluster)),
            "\n"@,
        )
    }
}

/// Writes one line for a cluster.
pub fn format_cluster(cluster: &Cluster) -> (r: String)
    ensures
        r@ == cluster_line(cluster@),
{
    let state = match &cluster.state {
        Some(state) => state.clone(),
        None => "unknown".to_string(),
    };
    let description = match &cluster.description {
        Some(description) => "(".to_string().concat(description.as_str()).concat(")"),
        None => String::new(),
    };
    "- id=".to_string().concat(cluster.id.as_str()).concat(" name=").concat(
        cluster.name.as_str(),
    ).concat(" state=").concat(state.as_str()).concat(" ").concat(description.as_str())
}

/// Writes the list of clusters.
pub fn format_clusters(clusters: &Vec<Cluster>) -> (r: String)
    ensures
        r@ == clusters_text(clusters.deep_view()),
{
    if clusters.len() == 0 {
        return "No clusters found.".to_string();
    }
    let ghost lines_of = clusters.deep_view().map_values(
        |cluster: rancher::ClusterView| cluster_line(cluster),
    );
    let mut lines: Vec<String> = Vec::new();
    let mut i: usize = 0;
    while i < clusters.len()
        invariant
            i <= clusters@.len(),
            lines_of == clusters.deep_view().map_values(
                |cluster: rancher::ClusterView| cluster_line(cluster),
            ),
            lines.deep_view() =~= lines_of.take(i as int),
        decreases clusters@.len() - i,
    {
        let ghost before = lines.deep_view();
        lines.push(format_cluster(&clusters[i]));
        assert(lines_of[i as int] == cluster_line(clusters@[i as int]@));
        assert(lines.deep_view() =~= before.push(lines_of[i as int]));
        i += 1;
    }
    assert(lines.deep_view() =~= lines_of);
    text::join(&lines, "\n")
}

// ---- Laws -----------------------------------------------------------------
/// The cluster at position `i` is the first of that name, up to ASCII case.
pub open spec fn is_first_named(
    clusters: Seq<rancher::ClusterView>,
    name: Seq<char>,
    i: int,
) -> bool {
    &&& 0 <= i < clusters.len()
    &&& text::lowered(clusters[i].name) == text::lowered(name)
    &&& forall|j: int| 0 <= j < i ==> text::lowered((#[trigger] clusters[j]).name)
        != text::lowered(name)
}

/// A name is found exactly where some cluster has it, up to ASCII case, and
/// then the ID is that of the first such cluster.
pub proof fn law_lookup_finds_first(clusters: Seq<rancher::ClusterView>, name: Seq<char>)
    ensures
        looked_up(clusters, name) is Ok <==> exists|i: int|
            0 <= i < clusters.len() && text::lowered((#[trigger] clusters[i]).name)
                == text::lowered(name),
        looked_up(clusters, name) matches Ok(id) ==> exists|i: int| #[trigger]
            is_first_named(clusters, name, i) && clusters[i].id == id,
        looked_up(clusters, name) is Err ==> looked_up(clusters, name) == Err::<
            Seq<char>,
            Seq<char>,
        >(unknown_cluster(name)),
    decreases clusters.len(),
{
    if clusters.len() > 0 {
        let rest = clusters.drop_first();
        if text::lowered(clusters[0].name) == text::lowered(name) {
            assert(is_first_named(clusters, name, 0));
        } else {
            law_lookup_finds_first(rest, name);
            if looked_up(rest, name) is Ok {
                let id = looked_up(rest, name)->Ok_0;
                let i = choose|i: int| #[trigger]
                    is_first_named(rest, name, i) && rest[i].id == id;
                assert(clusters[i + 1] == rest[i]);
                assert forall|j: int| 0 <= j < i + 1 implies text::lowered(
                    (#[trigger] clusters[j]).name,
                ) != text::lowered(name) by {
                    if j > 0 {
                        assert(clusters[j] == rest[j - 1]);
                    }
                }
                assert(is_first_named(clusters, name, i + 1));
            } else {
                assert forall|i: int| 0 <= i < clusters.len() implies text::lowered(
                    (#[trigger] clusters[i]).name,
                ) != text::lowered(name) by {
                    if i > 0 {
                        assert(clusters[i] == rest[i - 1]);
                    }
                }
            }
        }
    }
}

/// Names that differ only in ASCII case lead to the same cluster.
pub proof fn law_lookup_ignores_case(
    clusters: Seq<rancher::ClusterView>,
    a: Seq<char>,
    b: Seq<char>,
)
    requires
        text::lowered(a) == text::lowered(b),
    ensures
        first_named(clusters, a) == first_named(clusters, b),
    decreases clusters.len(),
{
    if clusters.len() > 0 {
        law_lookup_ignores_case(clusters.drop_first(), a, b);
    }
}

/// The line of a cluster holds its ID and its name.
proof fn lemma_line_holds_id_and_name(cluster: rancher::ClusterView)
    ensures
        text::contains_text(cluster_line(cluster), cluster.id),
        text::contains_text(cluster_line(cluster), cluster.name),
{
    let line = cluster_line(cluster);
    let a = "- id="@;
    let b = " name="@;
    let after_id = line.skip((a.len() + cluster.id.len()) as int);
    let head = a + cluster.id + b;
    let after_name = line.skip((head.len() + cluster.name.len()) as int);
    assert(line =~= a + cluster.id + after_id);
    assert(line =~= head + cluster.name + after_name);
    text::lemma_contains_middle(a, cluster.id, after_id);
    text::lemma_contains_middle(head, cluster.name, after_name);
}

/// The list names every cluster, by its ID and by its name.
pub proof fn law_list_names_every_cluster(clusters: Seq<rancher::ClusterView>, i: int)
    requires
        0 <= i < clusters.len(),
    ensures
        text::contains_text(clusters_text(clusters), cluster_line(clusters[i])),
        text::contains_text(clusters_text(clusters), clusters[i].id),
        text::contains_text(clusters_text(clusters), clusters[i].name),
{
    let lines = clusters.map_values(|cluster: rancher::ClusterView| cluster_line(cluster));
    text::lemma_joined_holds_each(lines, "\n"@, i);
    lemma_line_holds_id_and_name(clusters[i]);
    text::lemma_contains_transitive(
        clusters_text(clusters),
        cluster_line(clusters[i]),
        clusters[i].id,
    );
    text::lemma_contains_transitive(
        clusters_text(clusters),
        cluster_line(clusters[i]),
        clusters[i].name,
    );
}

/// A text is the ID of a cluster exactly where it is `local` or begins with the
/// letter `c` and a hyphen.
pub proof fn law_ids_are_told_by_their_first_characters(cluster: Seq<char>)
    ensures
        is_cluster_id(cluster) <==> (cluster == seq!['l', 'o', 'c', 'a', 'l'] || (cluster.len()
            >= 2 && cluster[0] == 'c' && cluster[1] == '-')),
{
    reveal_strlit("local");
    reveal_strlit("c-");
    assert("local"@ =~= seq!['l', 'o', 'c', 'a', 'l']);
    if cluster.len() >= 2 && cluster[0] == 'c' && cluster[1] == '-' {
        assert("c-"@ =~= cluster.subrange(0, 2));
    }
    if "c-"@.is_prefix_of(cluster) {
        assert(cluster.subrange(0, 2)[0] == cluster[0]);
        assert(cluster.subrange(0, 2)[1] == cluster[1]);
    }
}

/// The cluster has that name, up to the case of ASCII letters.
pub open spec fn is_called(cluster: rancher::ClusterView, name: Seq<char>) -> bool {
    cluster.name.len() == name.len() && forall|i: int|
        0 <= i < name.len() ==> text::same_letter(#[trigger] name[i], cluster.name[i])
}

/// A lookup gives the ID of the cluster at position `at` where that one has the
/// name and none before it has, and it fails where no cluster has the name.
pub proof fn law_lookup_goes_by_letters(
    clusters: Seq<rancher::ClusterView>,
    name: Seq<char>,
    at: int,
)
    ensures
        0 <= at < clusters.len() && is_called(clusters[at], name) && (forall|i: int|
            0 <= i < at ==> !is_called(#[trigger] clusters[i], name)) ==> first_named(
            clusters,
            name,
        ) == Some(clusters[at].id) && looked_up(clusters, name) == Ok::<Seq<char>, Seq<char>>(
            clusters[at].id,
        ),
        (forall|i: int| 0 <= i < clusters.len() ==> !is_called(#[trigger] clusters[i], name))
            ==> first_named(clusters, name) is None && looked_up(clusters, name) is Err,
    decreases clusters.len(),
{
    if clusters.len() > 0 {
        let rest = clusters.drop_first();
        text::law_equal_up_to_case(name, clusters[0].name);
        law_lookup_goes_by_letters(rest, name, at - 1);
        if 0 < at < clusters.len() {
            assert(rest[at - 1] == clusters[at]);
        }
        assert forall|i: int| 0 <= i < rest.len() implies #[trigger] rest[i] == clusters[i + 1] by {}
    }
}

/// The message for an unknown name quotes it and points to the list.
pub proof fn law_unknown_cluster_is_quoted(cluster: Seq<char>)
    ensures
        ({
            let message = unknown_cluster(cluster);
            let head = "cluster '"@;
            let end = "' not found; use list_clusters to see available clusters"@;
            &&& head.is_prefix_of(message)
            &&& end.is_suffix_of(message)
            &&& message.len() == head.len() + cluster.len() + end.len()
            &&& text::occurs_at(message, cluster, head.len() as int)
        }),
{
    let message = unknown_cluster(cluster);
    let head = "cluster '"@;
    let end = "' not found; use list_clusters to see available clusters"@;
    assert(head =~= message.subrange(0, head.len() as int));
    assert(end =~= message.subrange(message.len() - end.len(), message.len() as int));
    assert(message.subrange(head.len() as int, (head.len() + cluster.len()) as int) =~= cluster);
}

/// The line of a cluster holds its ID, its name and its state, in this order;
/// a cluster without a state is of unknown state. The description comes last,
/// in brackets, where there is one, and nothing comes in its place where there
/// is none.
pub proof fn law_line_holds_every_field(cluster: Cluster)
    ensures
        ({
            let line = cluster_line(cluster@);
            let head = "- id="@ + cluster.id@ + " name="@ + cluster.name@;
            &&& head.is_prefix_of(line)
            &&& text::contains_text(line, "id="@ + cluster.id@)
            &&& text::contains_text(line, " name="@ + cluster.name@)
            &&& match (cluster.state, cluster.description) {
                (Some(state), Some(d)) => line.skip(head.len() as int) == " state="@ + state@
                    + " "@ + ("("@ + d@ + ")"@),
                (Some(state), None) => line.skip(head.len() as int) == " state="@ + state@
                    + " "@,
                (None, Some(d)) => line.skip(head.len() as int) == " state="@ + "unknown"@ + " "@
                    + ("("@ + d@ + ")"@),
                (None, None) => line.skip(head.len() as int) == " state="@ + "unknown"@ + " "@,
            }
            &&& match cluster.state {
                Some(state) => text::contains_text(line, " state="@ + state@),
                None => text::contains_text(line, " state=unknown"@),
            }
            &&& match cluster.description {
                Some(d) => text::contains_text(line, "("@ + d@ + ")"@),
                None => true,
            }
        }),
{
    let line = cluster_line(cluster@);
    let id = cluster.id@;
    let name = cluster.name@;
    let head = "- id="@ + id + " name="@ + name;
    let rest = line.skip(head.len() as int);
    let shown = match cluster.state {
        Some(state) => state@,
        None => "unknown"@,
    };
    let described = match cluster.description {
        Some(d) => "("@ + d@ + ")"@,
        None => Seq::empty(),
    };
    reveal_strlit("- id=");
    reveal_strlit("id=");
    reveal_strlit(" state=");
    reveal_strlit("unknown");
    reveal_strlit(" state=unknown");
    assert(" state="@ + "unknown"@ =~= " state=unknown"@);
    assert(head =~= line.subrange(0, head.len() as int));
    assert(rest =~= " state="@ + shown + " "@ + described);
    assert(line =~= seq!['-', ' '] + ("id="@ + id) + (" name="@ + name + rest));
    text::lemma_contains_middle(seq!['-', ' '], "id="@ + id, " name="@ + name + rest);
    assert(line =~= ("- id="@ + id) + (" name="@ + name) + rest);
    text::lemma_contains_middle("- id="@ + id, " name="@ + name, rest);
    assert(line =~= head + (" state="@ + shown) + (" "@ + described));
    text::lemma_contains_middle(head, " state="@ + shown, " "@ + described);
    assert(line =~= (head + " state="@ + shown + " "@) + described + Seq::<char>::empty());
    text::lemma_contains_middle(head + " state="@ + shown + " "@, described, Seq::empty());
    if cluster.description is None {
        assert(rest =~= " state="@ + shown + " "@);
    }
}

/// The list of one cluster is its line, and one cluster more adds its line
/// behind a line break; without clusters the list says so.
pub proof fn law_list_grows_line_by_line(
    clusters: Seq<rancher::ClusterView>,
    cluster: rancher::ClusterView,
)
    ensures
        clusters_text(Seq::empty()) == "No clusters found."@,
        clusters_text(seq![cluster]) == cluster_line(cluster),
        clusters.len() > 0 ==> clusters_text(clusters.push(cluster)) == clusters_text(clusters)
            + "\n"@ + cluster_line(cluster),
{
    let line = |c: rancher::ClusterView| cluster_line(c);
    text::law_joining(clusters.map_values(line), "\n"@, cluster_line(cluster));
    assert(seq![cluster].map_values(line) =~= seq![cluster_line(cluster)]);
    assert(clusters.push(cluster).map_values(line) =~= clusters.map_values(line).push(
        cluster_line(cluster),
    ));
}

} // verus!
