//! Sources GLSL des nuanceurs du rendu : une passe de profondeur les
//! emploie d'abord, puis la passe de couleur eclaire chaque fragment par
//! les huit lumieres du tableau borne.

use vstd::prelude::*;
use vstd::string::StringExecFns;

verus! {

/// Texte exact du nuanceur de sommets.
pub open spec fn source_nuanceur_sommets() -> Seq<char> {
    "
            #version 430
            uniform layout(std140);

            uniform mat4 camera_perspective;
            uniform vec3 direction_regard;

            const uint NBR_LUMIERES = 8;

            layout(std140) buffer lumieres {
                vec4 positions[NBR_LUMIERES];
                vec4 couleurs[NBR_LUMIERES];
            };

            in vec3 position;
            in vec3 normale;
            in vec3 coordonnees_texture;

            out vec3 normal;
            out vec3 coord_tex;

            out vec3 directionRegard;

            out Lumieres {
                vec4 couleurs[NBR_LUMIERES];
                vec3 directions[NBR_LUMIERES];
                float distances[NBR_LUMIERES];
            } outLumieres;

            void main() {
                gl_Position = camera_perspective * vec4(position, 1.0);

                normal = normale;

                coord_tex = coordonnees_texture;

                directionRegard = direction_regard;

                for(int i=0; i<NBR_LUMIERES; ++i) {
                    outLumieres.distances[i] = distance(vec3(positions[i]), position);
                    outLumieres.directions[i] = normalize(position - vec3(positions[i]));
                    outLumieres.couleurs[i] = couleurs[i];
                }
            }
        "@
}

/// Texte exact du nuanceur de fragments.
pub open spec fn source_nuanceur_fragments() -> Seq<char> {
    "
            #version 430
            uniform layout(std140);

            uniform sampler2DArray textures;

            in vec3 normal;
            in vec3 coord_tex;

            in vec3 directionRegard;

            const uint NBR_LUMIERES = 8;

            in Lumieres {
                vec4 couleurs[NBR_LUMIERES];
                vec3 directions[NBR_LUMIERES];
                float distances[NBR_LUMIERES];
            } lumieres;

            out vec4 couleur;

            void main() {

                vec4 luminosite = vec4(0.0, 0.0, 0.0, 1.0);

                const float INTENSITE_SPECULAIRE = 0.45;
                const float INTENSITE_DIFFUSE = 0.45;
                const float INTENSITE_AMBIANTE = 1.0 - (INTENSITE_DIFFUSE + INTENSITE_SPECULAIRE);

                for(int i=0; i<NBR_LUMIERES; ++i) {

                    vec3 direction_reflexion = reflect(-lumieres.directions[i], normal);

                    float lumiere_speculaire = INTENSITE_SPECULAIRE * pow(max(dot(directionRegard, direction_reflexion), 0.0), 12);

                    float lumiere_diffuse = INTENSITE_DIFFUSE * max(dot(normal, lumieres.directions[i]), 0.0);

                    const float FACTEUR_DIMINUTION = 10.0;
                    float diminution = FACTEUR_DIMINUTION * (lumieres.distances[i] + lumieres.distances[i] * lumieres.distances[i]) + 1.0;
                    vec4 luminosite2 = (lumiere_speculaire + lumiere_diffuse + INTENSITE_AMBIANTE) * lumieres.couleurs[i] / diminution;

                    luminosite.x = max(luminosite.x, luminosite2.x);
                    luminosite.y = max(luminosite.y, luminosite2.y);
                    luminosite.z = max(luminosite.z, luminosite2.z);
                }

                couleur = texture(textures, coord_tex) * luminosite;
            }
        "@
}

/// Source du nuanceur de sommets : projette chaque sommet par la matrice
/// de camera et prepare, pour chaque lumiere, sa direction et sa distance.
pub fn vertex_shader() -> (r: String)
    ensures
        r@ == source_nuanceur_sommets(),
{
    String::from_str(
        "
            #version 430
            uniform layout(std140);

            uniform mat4 camera_perspective;
            uniform vec3 direction_regard;

            const uint NBR_LUMIERES = 8;

            layout(std140) buffer lumieres {
                vec4 positions[NBR_LUMIERES];
                vec4 couleurs[NBR_LUMIERES];
            };

            in vec3 position;
            in vec3 normale;
            in vec3 coordonnees_texture;

            out vec3 normal;
            out vec3 coord_tex;

            out vec3 directionRegard;

            out Lumieres {
                vec4 couleurs[NBR_LUMIERES];
                vec3 directions[NBR_LUMIERES];
                float distances[NBR_LUMIERES];
            } outLumieres;

            void main() {
                gl_Position = camera_perspective * vec4(position, 1.0);

                normal = normale;

                coord_tex = coordonnees_texture;

                directionRegard = direction_regard;

                for(int i=0; i<NBR_LUMIERES; ++i) {
                    outLumieres.distances[i] = distance(vec3(positions[i]), position);
                    outLumieres.directions[i] = normalize(position - vec3(positions[i]));
                    outLumieres.couleurs[i] = couleurs[i];
                }
            }
        ",
    )
}

/// Source du nuanceur de fragments : combine, lumiere par lumiere, les
/// parts speculaire, diffuse et ambiante, attenuees par la distance, et
/// module la texture par le maximum obtenu.
pub fn fragment_shader() -> (r: String)
    ensures
        r@ == source_nuanceur_fragments(),
{
    String::from_str(
        "
            #version 430
            uniform layout(std140);

            uniform sampler2DArray textures;

            in vec3 normal;
            in vec3 coord_tex;

            in vec3 directionRegard;

            const uint NBR_LUMIERES = 8;

            in Lumieres {
                vec4 couleurs[NBR_LUMIERES];
                vec3 directions[NBR_LUMIERES];
                float distances[NBR_LUMIERES];
            } lumieres;

            out vec4 couleur;

            void main() {

                vec4 luminosite = vec4(0.0, 0.0, 0.0, 1.0);

                const float INTENSITE_SPECULAIRE = 0.45;
                const float INTENSITE_DIFFUSE = 0.45;
                const float INTENSITE_AMBIANTE = 1.0 - (INTENSITE_DIFFUSE + INTENSITE_SPECULAIRE);

                for(int i=0; i<NBR_LUMIERES; ++i) {

                    vec3 direction_reflexion = reflect(-lumieres.directions[i], normal);

                    float lumiere_speculaire = INTENSITE_SPECULAIRE * pow(max(dot(directionRegard, direction_reflexion), 0.0), 12);

                    float lumiere_diffuse = INTENSITE_DIFFUSE * max(dot(normal, lumieres.directions[i]), 0.0);

                    const float FACTEUR_DIMINUTION = 10.0;
                    float diminution = FACTEUR_DIMINUTION * (lumieres.distances[i] + lumieres.distances[i] * lumieres.distances[i]) + 1.0;
                    vec4 luminosite2 = (lumiere_speculaire + lumiere_diffuse + INTENSITE_AMBIANTE) * lumieres.couleurs[i] / diminution;

                    luminosite.x = max(luminosite.x, luminosite2.x);
                    luminosite.y = max(luminosite.y, luminosite2.y);
                    luminosite.z = max(luminosite.z, luminosite2.z);
                }

                couleur = texture(textures, coord_tex) * luminosite;
            }
        ",
    )
}

} // verus!
