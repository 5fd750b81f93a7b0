use mongodb::bson::oid::ObjectId;
use rkblog::errors::{ApiError, ErrorKind};
use rkblog::middlewares::auth::{
    AdminPermissionAuthorization, AuthorizeToken, SecretKeyWrapper, UserAuthorization,
};
use rkblog::models::post::{PostReadBriefModel, PostReadFullModel, PostStoreModel, PostWriteModel};
use rkblog::models::user::{
    UserAuthModel, UserPermissionLevel, UserReadFullModel, UserStoreModel, UserWriteModel,
};
use rkblog::routes::auth::{get_token, issue_at};
use rkblog::routes::post::{CreatePost, DeletePost, GetPost, ListPosts, UpdatePost};
use rkblog::routes::user::{CreateUser, DeleteUser, UpdateUser};
use rkblog::routes::{post, user};
use rkblog::store::{Created, Reply, Request, Step};

const NOW: u64 = 1_700_000_000;

/// A stand-in for the stores, in memory.
struct Stores {
    users: Vec<UserStoreModel>,
    posts: Vec<PostStoreModel>,
    broken: bool,
    writes: usize,
}

impl Stores {
    fn answer(&mut self, request: Request) -> Reply {
        if self.broken {
            return match request {
                Request::FindUserByName(_) | Request::FindUserById(_) => {
                    Reply::User(Err("store is down".to_string()))
                }
                Request::FindPostByTitle(_) => Reply::Post(Err("store is down".to_string())),
                Request::ListUsers => Reply::Users(Err("store is down".to_string())),
                Request::ListPosts => Reply::Posts(Err("store is down".to_string())),
                _ => Reply::Written(Err("store is down".to_string())),
            };
        }
        match request {
            Request::FindUserByName(name) => {
                Reply::User(Ok(self.users.iter().find(|u| u.name == name).map(|u| u.duplicate())))
            }
            Request::FindUserById(id) => {
                Reply::User(Ok(self.users.iter().find(|u| u._id == id).map(|u| u.duplicate())))
            }
            Request::FindPostByTitle(title) => {
                Reply::Post(Ok(self.posts.iter().find(|p| p.title == title).map(|p| p.duplicate())))
            }
            Request::ListUsers => Reply::Users(Ok(self.users.iter().map(|u| u.duplicate()).collect())),
            Request::ListPosts => Reply::Posts(Ok(self.posts.iter().map(|p| p.duplicate()).collect())),
            Request::InsertUser(record) => {
                self.writes += 1;
                self.users.push(record);
                Reply::Written(Ok(()))
            }
            Request::ReplaceUser(id, record) => {
                self.writes += 1;
                for slot in self.users.iter_mut() {
                    if slot._id == id {
                        *slot = record.duplicate();
                    }
                }
                Reply::Written(Ok(()))
            }
            Request::DeleteUserByName(name) => {
                self.writes += 1;
                self.users.retain(|u| u.name != name);
                Reply::Written(Ok(()))
            }
            Request::InsertPost(record) => {
                self.writes += 1;
                self.posts.push(record);
                Reply::Written(Ok(()))
            }
            Request::ReplacePost(id, record) => {
                self.writes += 1;
                for slot in self.posts.iter_mut() {
                    if slot._id == id {
                        *slot = record.duplicate();
                    }
                }
                Reply::Written(Ok(()))
            }
            Request::DeletePostByTitle(title) => {
                self.writes += 1;
                self.posts.retain(|p| p.title != title);
                Reply::Written(Ok(()))
            }
            Request::DeletePostsByAuthor(author) => {
                self.writes += 1;
                self.posts.retain(|p| p.author != author);
                Reply::Written(Ok(()))
            }
        }
    }

    fn user_id(&self, name: &str) -> ObjectId {
        self.users.iter().find(|u| u.name == name).unwrap()._id
    }

    fn posts_of(&self, owner: ObjectId) -> usize {
        self.posts.iter().filter(|p| p.author == owner).count()
    }
}

trait Handler: Sized {
    type Answer;
    fn go_on(self, reply: Reply) -> Step<Self, Self::Answer>;
}

impl Handler for GetPost {
    type Answer = PostReadFullModel;
    fn go_on(self, reply: Reply) -> Step<Self, Self::Answer> {
        self.resume(reply)
    }
}

impl Handler for ListPosts {
    type Answer = Vec<PostReadBriefModel>;
    fn go_on(self, reply: Reply) -> Step<Self, Self::Answer> {
        self.resume(reply)
    }
}

impl Handler for CreatePost {
    type Answer = Created<PostReadFullModel>;
    fn go_on(self, reply: Reply) -> Step<Self, Self::Answer> {
        self.resume(reply)
    }
}

impl Handler for UpdatePost {
    type Answer = PostReadFullModel;
    fn go_on(self, reply: Reply) -> Step<Self, Self::Answer> {
        self.resume(reply)
    }
}

impl Handler for DeletePost {
    type Answer = PostReadFullModel;
    fn go_on(self, reply: Reply) -> Step<Self, Self::Answer> {
        self.resume(reply)
    }
}

impl Handler for CreateUser {
    type Answer = Created<UserReadFullModel>;
    fn go_on(self, reply: Reply) -> Step<Self, Self::Answer> {
        self.resume(reply)
    }
}

impl Handler for UpdateUser {
    type Answer = UserReadFullModel;
    fn go_on(self, reply: Reply) -> Step<Self, Self::Answer> {
        self.resume(reply)
    }
}

impl Handler for DeleteUser {
    type Answer = UserReadFullModel;
    fn go_on(self, reply: Reply) -> Step<Self, Self::Answer> {
        self.resume(reply)
    }
}

fn run<H: Handler>(stores: &mut Stores, first: Step<H, H::Answer>) -> Result<H::Answer, ApiError> {
    let mut step = first;
    loop {
        match step {
            Step::Done(answer) => return answer,
            Step::Ask(state, request) => {
                let reply = stores.answer(request);
                step = state.go_on(reply);
            }
        }
    }
}

fn failure<T>(answer: Result<T, ApiError>) -> (ErrorKind, String) {
    match answer {
        Ok(_) => panic!("the handler succeeded"),
        Err(e) => (e.kind, e.message),
    }
}

fn success<T>(answer: Result<T, ApiError>) -> T {
    match answer {
        Ok(value) => value,
        Err(e) => panic!("the handler failed: {}", e.message),
    }
}

fn id(n: u8) -> ObjectId {
    ObjectId::from_bytes([n; 12])
}

fn account(n: u8, name: &str, permissions: UserPermissionLevel) -> UserStoreModel {
    UserStoreModel::from(
        UserWriteModel {
            name: name.to_string(),
            password: format!("{}-password", name),
            permissions,
            bio: format!("I am {}.", name),
        },
        id(n),
    )
}

fn stored_post(n: u8, title: &str, owner: u8) -> PostStoreModel {
    PostStoreModel { _id: id(n), title: title.to_string(), content: "text".to_string(), author: id(owner) }
}

fn written_post(title: &str, content: &str) -> PostWriteModel {
    PostWriteModel { title: title.to_string(), content: content.to_string() }
}

fn stores() -> Stores {
    Stores {
        users: vec![
            account(1, "alice", UserPermissionLevel::User),
            account(2, "bob", UserPermissionLevel::User),
            account(3, "carol", UserPermissionLevel::User),
            account(9, "root", UserPermissionLevel::Admin),
        ],
        posts: vec![
            stored_post(11, "alice-one", 1),
            stored_post(12, "bob-one", 2),
            stored_post(13, "alice-two", 1),
            stored_post(14, "carol-one", 3),
        ],
        broken: false,
        writes: 0,
    }
}

fn key() -> SecretKeyWrapper {
    SecretKeyWrapper { key: "a long-lived signing secret".to_string() }
}

fn header_for(stores: &Stores, name: &str) -> String {
    let who = stores.users.iter().find(|u| u.name == name).unwrap();
    format!("Bearer {}", success(issue_at(who, &key(), NOW)).token)
}

fn as_user(stores: &Stores, name: &str) -> AuthorizeToken<UserAuthorization> {
    let header = header_for(stores, name);
    match AuthorizeToken::<UserAuthorization>::admit_at(Some(&header), Some(&key()), NOW + 1) {
        Ok(token) => token,
        Err(_) => panic!("the guard refused a fresh token"),
    }
}

fn as_admin(stores: &Stores, name: &str) -> AuthorizeToken<AdminPermissionAuthorization> {
    let header = header_for(stores, name);
    match AuthorizeToken::<AdminPermissionAuthorization>::admit_at(Some(&header), Some(&key()), NOW + 1)
    {
        Ok(token) => token,
        Err(_) => panic!("the guard refused an administrator"),
    }
}

#[test]
fn deleting_an_account_cascades_to_its_posts() {
    let mut db = stores();
    let alice = db.user_id("alice");
    assert_eq!(db.posts_of(alice), 2);
    let admin = as_admin(&db, "root");
    let shown = success(run(&mut db, user::delete(&admin, "alice")));
    assert_eq!(shown.name, "alice");
    assert_eq!(shown._id, "010101010101010101010101");
    assert_eq!(db.posts_of(alice), 0);
    assert_eq!(db.posts.len(), 2);
    let caller = as_user(&db, "bob");
    let lookup = match db.answer(Request::FindUserByName("alice".to_string())) {
        Reply::User(lookup) => lookup,
        _ => panic!("another kind of answer"),
    };
    let (kind, message) = failure(user::get(&caller, "alice", lookup));
    assert_eq!(kind, ErrorKind::NotFound);
    assert_eq!(message, "User alice not found.");
}

#[test]
fn deleting_an_unknown_account_is_not_found_and_writes_nothing() {
    let mut db = stores();
    let admin = as_admin(&db, "root");
    let (kind, message) = failure(run(&mut db, user::delete(&admin, "zed")));
    assert_eq!(kind, ErrorKind::NotFound);
    assert_eq!(message, "User zed not found.");
    assert_eq!(db.writes, 0);
}

#[test]
fn update_of_a_post_owned_by_another_is_forbidden() {
    let mut db = stores();
    let bob = as_user(&db, "bob");
    let (kind, message) =
        failure(run(&mut db, post::update(bob, "carol-one", written_post("carol-one", "mine now"))));
    assert_eq!(kind, ErrorKind::Forbidden);
    assert_eq!(message, "You don't have permission to modify this resource.");
    assert_eq!(db.writes, 0);
    assert_eq!(db.posts[3].content, "text");
}

#[test]
fn update_of_an_own_post_succeeds() {
    let mut db = stores();
    let bob = as_user(&db, "bob");
    let shown = success(run(&mut db, post::update(bob, "bob-one", written_post("bob-two", "new text"))));
    assert_eq!(shown._id, "0c0c0c0c0c0c0c0c0c0c0c0c");
    assert_eq!(shown.title, "bob-two");
    assert_eq!(shown.content, "new text");
    assert_eq!(shown.author.name, "bob");
    assert_eq!(db.writes, 1);
    assert_eq!(db.posts[1].title, "bob-two");
    assert!(db.posts[1]._id == id(12));
    assert!(db.posts[1].author == id(2));
}

#[test]
fn administrator_may_update_any_post_and_becomes_its_author() {
    let mut db = stores();
    let root = as_user(&db, "root");
    let shown = success(run(&mut db, post::update(root, "carol-one", written_post("carol-one", "edited"))));
    assert_eq!(shown.author.name, "root");
    assert!(db.posts[3].author == id(9));
    assert_eq!(db.posts[3].content, "edited");
}

#[test]
fn update_of_an_unknown_post_is_not_found() {
    let mut db = stores();
    let bob = as_user(&db, "bob");
    let (kind, message) = failure(run(&mut db, post::update(bob, "nothing", written_post("x", "y"))));
    assert_eq!(kind, ErrorKind::NotFound);
    assert_eq!(message, "Post nothing not found.");
}

#[test]
fn post_whose_owner_is_gone_is_not_found() {
    let mut db = stores();
    db.users.retain(|u| u.name != "carol");
    let bob = as_user(&db, "bob");
    let (kind, message) = failure(run(&mut db, post::get(&bob, "carol-one")));
    assert_eq!(kind, ErrorKind::NotFound);
    assert_eq!(message, "User not found.");
    let bob = as_user(&db, "bob");
    let (kind, _) = failure(run(&mut db, post::update(bob, "carol-one", written_post("a", "b"))));
    assert_eq!(kind, ErrorKind::NotFound);
    assert_eq!(db.writes, 0);
}

#[test]
fn delete_of_a_post_owned_by_another_is_forbidden() {
    let mut db = stores();
    let bob = as_user(&db, "bob");
    let (kind, message) = failure(run(&mut db, post::delete(bob, "alice-one")));
    assert_eq!(kind, ErrorKind::Forbidden);
    assert_eq!(message, "You don't have permission to delete this resource.");
    assert_eq!(db.posts.len(), 4);
}

#[test]
fn delete_of_an_own_post_removes_it() {
    let mut db = stores();
    let alice = as_user(&db, "alice");
    let shown = success(run(&mut db, post::delete(alice, "alice-one")));
    assert_eq!(shown.title, "alice-one");
    assert_eq!(shown.author.name, "alice");
    assert_eq!(db.posts.len(), 3);
    assert_eq!(db.posts_of(id(1)), 1);
}

#[test]
fn get_shows_a_post_with_its_author() {
    let mut db = stores();
    let bob = as_user(&db, "bob");
    let shown = success(run(&mut db, post::get(&bob, "alice-two")));
    assert_eq!(shown._id, "0d0d0d0d0d0d0d0d0d0d0d0d");
    assert_eq!(shown.title, "alice-two");
    assert_eq!(shown.content, "text");
    assert_eq!(shown.author._id, "010101010101010101010101");
    assert_eq!(shown.author.name, "alice");
    assert!(shown.author.permissions == UserPermissionLevel::User);
}

#[test]
fn list_shows_every_post_in_order() {
    let mut db = stores();
    let bob = as_user(&db, "bob");
    let shown = success(run(&mut db, post::list(&bob)));
    let titles: Vec<&str> = shown.iter().map(|p| p.title.as_str()).collect();
    let authors: Vec<&str> = shown.iter().map(|p| p.author.as_str()).collect();
    assert_eq!(titles, vec!["alice-one", "bob-one", "alice-two", "carol-one"]);
    assert_eq!(authors, vec!["alice", "bob", "alice", "carol"]);
    assert_eq!(shown[0]._id, "0b0b0b0b0b0b0b0b0b0b0b0b");
}

#[test]
fn list_of_no_posts_is_empty() {
    let mut db = stores();
    db.posts.clear();
    let bob = as_user(&db, "bob");
    assert!(success(run(&mut db, post::list(&bob))).is_empty());
}

#[test]
fn list_fails_where_an_owner_is_gone() {
    let mut db = stores();
    db.users.retain(|u| u.name != "bob");
    let alice = as_user(&db, "alice");
    let (kind, message) = failure(run(&mut db, post::list(&alice)));
    assert_eq!(kind, ErrorKind::NotFound);
    assert_eq!(message, "User not found.");
}

#[test]
fn create_stores_a_post_owned_by_the_caller() {
    let mut db = stores();
    let carol = as_user(&db, "carol");
    let created = success(run(&mut db, post::create(carol, written_post("carol-two", "hello"))));
    assert_eq!(created.location, "carol-two");
    assert_eq!(created.body.title, "carol-two");
    assert_eq!(created.body.content, "hello");
    assert_eq!(created.body.author.name, "carol");
    assert_eq!(db.posts.len(), 5);
    assert!(db.posts[4].author == id(3));
    assert_eq!(created.body._id, db.posts[4]._id.to_hex());
}

#[test]
fn create_under_a_taken_title_is_a_conflict() {
    let mut db = stores();
    let carol = as_user(&db, "carol");
    let (kind, message) = failure(run(&mut db, post::create(carol, written_post("bob-one", "hello"))));
    assert_eq!(kind, ErrorKind::Conflict);
    assert_eq!(message, "Post bob-one already exists.");
    assert_eq!(db.writes, 0);
}

#[test]
fn store_failure_is_a_server_fault_with_its_report() {
    let mut db = stores();
    let bob = as_user(&db, "bob");
    let root = as_admin(&db, "root");
    db.broken = true;
    let (kind, message) = failure(run(&mut db, post::get(&bob, "bob-one")));
    assert_eq!(kind, ErrorKind::ServerFault);
    assert_eq!(message, "store is down");
    let (kind, _) = failure(run(&mut db, post::list(&bob)));
    assert_eq!(kind, ErrorKind::ServerFault);
    let (kind, _) = failure(run(&mut db, user::delete(&root, "alice")));
    assert_eq!(kind, ErrorKind::ServerFault);
    let (kind, message) = failure(user::list(&bob, Err("no cursor".to_string())));
    assert_eq!(kind, ErrorKind::ServerFault);
    assert_eq!(message, "no cursor");
}

#[test]
fn failed_write_is_a_server_fault() {
    let record = account(1, "alice", UserPermissionLevel::User);
    let step = DeleteUser::DeletingUser { user: record, name: "alice".to_string() }
        .resume(Reply::Written(Err("disk full".to_string())));
    match step {
        Step::Done(Err(e)) => {
            assert_eq!(e.kind, ErrorKind::ServerFault);
            assert_eq!(e.message, "disk full");
        }
        _ => panic!("the handler went on after a failed write"),
    }
}

#[test]
fn answer_of_another_kind_is_a_server_fault() {
    let step = GetPost::FindingPost { title: "t".to_string() }.resume(Reply::Written(Ok(())));
    match step {
        Step::Done(Err(e)) => {
            assert_eq!(e.kind, ErrorKind::ServerFault);
            assert_eq!(e.message, "Unexpected answer from the store.");
        }
        _ => panic!("the handler went on after an answer of another kind"),
    }
}

#[test]
fn account_removal_asks_for_the_posts_of_that_account() {
    let record = account(7, "alice", UserPermissionLevel::User);
    let step = DeleteUser::DeletingUser { user: record, name: "alice".to_string() }
        .resume(Reply::Written(Ok(())));
    match step {
        Step::Ask(DeleteUser::DeletingPosts { user }, Request::DeletePostsByAuthor(owner)) => {
            assert_eq!(user.name, "alice");
            assert!(owner == id(7));
        }
        _ => panic!("the removal did not cascade"),
    }
}

#[test]
fn user_create_stores_the_digest_not_the_password() {
    let mut db = stores();
    let root = as_admin(&db, "root");
    let dave = UserWriteModel {
        name: "dave".to_string(),
        password: "hello".to_string(),
        permissions: UserPermissionLevel::User,
        bio: "new".to_string(),
    };
    let created = success(run(&mut db, user::create(&root, dave)));
    assert_eq!(created.location, "dave");
    assert_eq!(created.body.name, "dave");
    assert_eq!(created.body.bio, "new");
    assert_eq!(db.users.len(), 5);
    assert_eq!(
        db.users[4].password_hash,
        "2cf24dba5fb0a30e26e83b2ac5b9e29e1b161e5c1fa7425e73043362938b9824"
    );
    assert_eq!(created.body._id, db.users[4]._id.to_hex());
}

#[test]
fn user_create_under_a_taken_name_is_a_conflict() {
    let mut db = stores();
    let root = as_admin(&db, "root");
    let again = UserWriteModel {
        name: "bob".to_string(),
        password: "x".to_string(),
        permissions: UserPermissionLevel::Admin,
        bio: String::new(),
    };
    let (kind, message) = failure(run(&mut db, user::create(&root, again)));
    assert_eq!(kind, ErrorKind::Conflict);
    assert_eq!(message, "User bob already exists.");
    assert_eq!(kind.status_code(), 409);
    assert_eq!(db.users.len(), 4);
}

#[test]
fn user_update_by_the_account_itself_keeps_its_identifier() {
    let mut db = stores();
    let bob = as_user(&db, "bob");
    let change = UserWriteModel {
        name: "robert".to_string(),
        password: "hello".to_string(),
        permissions: UserPermissionLevel::User,
        bio: "renamed".to_string(),
    };
    let shown = success(run(&mut db, user::update(bob, "bob", change)));
    assert_eq!(shown._id, "020202020202020202020202");
    assert_eq!(shown.name, "robert");
    assert_eq!(shown.bio, "renamed");
    assert!(db.users[1]._id == id(2));
    assert_eq!(db.users[1].name, "robert");
    assert!(db.users[1].authenticate("hello"));
}

#[test]
fn user_update_by_another_account_is_forbidden() {
    let mut db = stores();
    let bob = as_user(&db, "bob");
    let change = UserWriteModel {
        name: "alice".to_string(),
        password: "taken over".to_string(),
        permissions: UserPermissionLevel::Admin,
        bio: String::new(),
    };
    let (kind, message) = failure(run(&mut db, user::update(bob, "alice", change)));
    assert_eq!(kind, ErrorKind::Forbidden);
    assert_eq!(message, "You don't have permission to modify this resource.");
    assert_eq!(db.writes, 0);
    assert!(db.users[0].authenticate("alice-password"));
}

#[test]
fn user_update_by_an_administrator_is_allowed() {
    let mut db = stores();
    let root = as_user(&db, "root");
    let change = UserWriteModel {
        name: "alice".to_string(),
        password: "reset".to_string(),
        permissions: UserPermissionLevel::Admin,
        bio: "promoted".to_string(),
    };
    let shown = success(run(&mut db, user::update(root, "alice", change)));
    assert!(shown.permissions == UserPermissionLevel::Admin);
    assert!(db.users[0].permissions == UserPermissionLevel::Admin);
}

#[test]
fn user_list_shows_brief_forms_in_order() {
    let db = stores();
    let bob = as_user(&db, "bob");
    let all = db.users.iter().map(|u| u.duplicate()).collect();
    let shown = success(user::list(&bob, Ok(all)));
    let names: Vec<&str> = shown.iter().map(|u| u.name.as_str()).collect();
    assert_eq!(names, vec!["alice", "bob", "carol", "root"]);
    assert_eq!(shown[3]._id, "090909090909090909090909");
    assert!(shown[3].permissions == UserPermissionLevel::Admin);
    assert!(success(user::list(&bob, Ok(Vec::new()))).is_empty());
}

#[test]
fn user_get_shows_the_full_form() {
    let db = stores();
    let bob = as_user(&db, "bob");
    let shown = success(user::get(&bob, "carol", Ok(Some(db.users[2].duplicate()))));
    assert_eq!(shown._id, "030303030303030303030303");
    assert_eq!(shown.name, "carol");
    assert_eq!(shown.bio, "I am carol.");
    let (kind, message) = failure(user::get(&bob, "carol", Err("timeout".to_string())));
    assert_eq!(kind, ErrorKind::ServerFault);
    assert_eq!(message, "timeout");
}

#[test]
fn login_with_the_right_password_issues_a_token() {
    let db = stores();
    let auth = UserAuthModel { name: "bob".to_string(), password: "bob-password".to_string() };
    let issued = success(get_token(Ok(Some(db.users[1].duplicate())), &key(), &auth));
    let header = format!("Bearer {}", issued.token);
    let admitted = match AuthorizeToken::<UserAuthorization>::from_request(Some(&header), Some(&key())) {
        Ok(token) => token,
        Err(_) => panic!("the guard refused a token issued a moment ago"),
    };
    assert_eq!(admitted.claim.name, "bob");
    assert_eq!(admitted.claim._id, "020202020202020202020202");
    assert!(admitted.claim.permissions == UserPermissionLevel::User);
}

#[test]
fn login_with_a_wrong_password_is_forbidden() {
    let db = stores();
    let auth = UserAuthModel { name: "bob".to_string(), password: "alice-password".to_string() };
    let (kind, message) = failure(get_token(Ok(Some(db.users[1].duplicate())), &key(), &auth));
    assert_eq!(kind, ErrorKind::Forbidden);
    assert_eq!(message, "Invalid password.");
}

#[test]
fn login_under_an_unknown_name_is_not_found() {
    let auth = UserAuthModel { name: "zed".to_string(), password: "x".to_string() };
    let (kind, message) = failure(get_token(Ok(None), &key(), &auth));
    assert_eq!(kind, ErrorKind::NotFound);
    assert_eq!(message, "User zed not found.");
}

#[test]
fn login_while_the_store_is_down_is_a_server_fault() {
    let auth = UserAuthModel { name: "bob".to_string(), password: "x".to_string() };
    let (kind, message) = failure(get_token(Err("connection reset".to_string()), &key(), &auth));
    assert_eq!(kind, ErrorKind::ServerFault);
    assert_eq!(message, "connection reset");
}

#[test]
fn end_to_end_requests_of_an_ordinary_user() {
    let mut db = stores();
    let secret = key();
    let auth = UserAuthModel { name: "bob".to_string(), password: "bob-password".to_string() };
    let issued = success(get_token(Ok(Some(db.users[1].duplicate())), &secret, &auth));
    let header = format!("Bearer {}", issued.token);

    let bob = match AuthorizeToken::<UserAuthorization>::from_request(Some(&header), Some(&secret)) {
        Ok(token) => token,
        Err(_) => panic!("refused"),
    };
    let (kind, _) = failure(run(&mut db, post::update(bob, "carol-one", written_post("c", "d"))));
    assert_eq!(kind, ErrorKind::Forbidden);
    assert_eq!(kind.status_code(), 403);

    let bob = match AuthorizeToken::<UserAuthorization>::from_request(Some(&header), Some(&secret)) {
        Ok(token) => token,
        Err(_) => panic!("refused"),
    };
    let shown = success(run(&mut db, post::update(bob, "bob-one", written_post("bob-one", "d"))));
    assert_eq!(shown.content, "d");

    let later = AuthorizeToken::<UserAuthorization>::admit_at(Some(&header), Some(&secret), u64::MAX);
    assert!(matches!(later, Err(ErrorKind::Unauthenticated)));
    let none = AuthorizeToken::<UserAuthorization>::from_request(None, Some(&secret));
    assert!(matches!(none, Err(ErrorKind::Unauthenticated)));
    let wrong = AuthorizeToken::<UserAuthorization>::from_request(Some("Token xyz"), Some(&secret));
    assert!(matches!(wrong, Err(ErrorKind::MalformedRequest)));
    let admin_only =
        AuthorizeToken::<AdminPermissionAuthorization>::from_request(Some(&header), Some(&secret));
    assert!(matches!(admin_only, Err(ErrorKind::Forbidden)));
}
